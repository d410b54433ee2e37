//! What is known and shown of one account.

use vstd::prelude::*;

use crate::clock::Moment;
use crate::domain::{Account, AccountView, Repository};
use crate::notifications::gate;
use crate::notifications::gate::{NotificationServerGate, ServerGateReason};
use crate::notifications::model;
use crate::notifications::model::{
    DisplayedNotificationSet, NotificationConditionalCache, NotificationEventIdentity,
    NotificationEventIdentityView, NotificationPollDirective, NotificationRepositoryScope,
    NotificationRepositoryScopeView, NotificationSnapshot, NotificationSnapshotView,
    ProviderNotificationEvent, PullRequestUnreadSummary,
};
use crate::notifications::polling::{ControllerToken, ControllerTokenView};
use crate::notifications::selection;
use crate::seqs;
use crate::text;

verus! {

pub const PAGE_SIZE: usize = 40;

pub struct AccountViewState {
    pub account: Option<Account>,
    pub selection: String,
    pub selected_repositories: Vec<NotificationRepositoryScope>,
    pub generation: u64,
    pub selection_generation: u64,
    pub mark_generation: u64,
    pub in_flight: bool,
    pub active_poll_generation: Option<u64>,
    pub snapshot: Option<NotificationSnapshot>,
    pub stale_notice: Option<String>,
    pub page: usize,
    pub displayed: Option<DisplayedNotificationSet>,
    pub consent_generation: u64,
    pub consent_enabled: bool,
    pub consent_transition: bool,
    pub conditional_cache: NotificationConditionalCache,
    pub server_gate: NotificationServerGate,
}

#[verifier::ext_equal]
pub struct DisplayedView {
    pub state_version: u64,
    pub events: Seq<NotificationEventIdentityView>,
}

#[verifier::ext_equal]
pub struct AccountStateView {
    pub account: Option<AccountView>,
    pub selection: Seq<char>,
    pub selected_repositories: Seq<NotificationRepositoryScopeView>,
    pub generation: u64,
    pub selection_generation: u64,
    pub mark_generation: u64,
    pub in_flight: bool,
    pub active_poll_generation: Option<u64>,
    pub snapshot: Option<NotificationSnapshotView>,
    pub stale_notice: Option<Seq<char>>,
    pub page: usize,
    pub displayed: Option<DisplayedView>,
    pub consent_generation: u64,
    pub consent_enabled: bool,
    pub consent_transition: bool,
    pub conditional_cache: Seq<(String, String)>,
    pub server_gate: NotificationServerGate,
}

pub open spec fn identity_views(s: Seq<NotificationEventIdentity>) -> Seq<
    NotificationEventIdentityView,
> {
    s.map_values(|x: NotificationEventIdentity| x@)
}

pub open spec fn displayed_view(d: DisplayedNotificationSet) -> DisplayedView {
    DisplayedView { state_version: d.state_version, events: identity_views(d.events@) }
}

pub open spec fn optional_displayed(d: Option<DisplayedNotificationSet>) -> Option<DisplayedView> {
    match d {
        Some(x) => Some(displayed_view(x)),
        None => None,
    }
}

pub open spec fn optional_snapshot(s: Option<NotificationSnapshot>) -> Option<
    NotificationSnapshotView,
> {
    match s {
        Some(x) => Some(x@),
        None => None,
    }
}

pub open spec fn optional_account(a: Option<Account>) -> Option<AccountView> {
    match a {
        Some(x) => Some(x@),
        None => None,
    }
}

impl View for AccountViewState {
    type V = AccountStateView;

    open spec fn view(&self) -> AccountStateView {
        AccountStateView {
            account: optional_account(self.account),
            selection: self.selection@,
            selected_repositories: selection::scope_views(self.selected_repositories@),
            generation: self.generation,
            selection_generation: self.selection_generation,
            mark_generation: self.mark_generation,
            in_flight: self.in_flight,
            active_poll_generation: self.active_poll_generation,
            snapshot: optional_snapshot(self.snapshot),
            stale_notice: text::option_text(self.stale_notice),
            page: self.page,
            displayed: optional_displayed(self.displayed),
            consent_generation: self.consent_generation,
            consent_enabled: self.consent_enabled,
            consent_transition: self.consent_transition,
            conditional_cache: self.conditional_cache.entries@,
            server_gate: self.server_gate,
        }
    }
}

/// An account of which nothing is known.
pub open spec fn unknown_account() -> AccountStateView {
    AccountStateView {
        account: None,
        selection: Seq::empty(),
        selected_repositories: Seq::empty(),
        generation: 0,
        selection_generation: 0,
        mark_generation: 0,
        in_flight: false,
        active_poll_generation: None,
        snapshot: None,
        stale_notice: None,
        page: 0,
        displayed: None,
        consent_generation: 0,
        consent_enabled: false,
        consent_transition: false,
        conditional_cache: Seq::empty(),
        server_gate: gate::open_gate(),
    }
}

/// The next generation; the last one stays the last.
pub open spec fn bump(n: u64) -> u64 {
    if n < u64::MAX {
        (n + 1) as u64
    } else {
        n
    }
}

// ---------------------------------------------------------------------------
// Events of a snapshot

/// The unread events in the order of their pull requests.
pub open spec fn events_of(unread: Seq<PullRequestUnreadSummary>) -> Seq<ProviderNotificationEvent> {
    seqs::concat(unread.map_values(|s: PullRequestUnreadSummary| s.unread_events@))
}

pub open spec fn unread_of(snapshot: Option<NotificationSnapshotView>) -> nat {
    match snapshot {
        Some(s) => events_of(s.unread_by_pull_request).len(),
        None => 0,
    }
}

pub open spec fn last_page(unread: nat) -> nat {
    if unread == 0 {
        0
    } else {
        ((unread - 1) / PAGE_SIZE as int) as nat
    }
}

/// The items that page `page` shows.
pub open spec fn page_of<A>(all: Seq<A>, page: nat) -> Seq<A> {
    let from = page * PAGE_SIZE;
    if from >= all.len() {
        Seq::empty()
    } else if from + PAGE_SIZE <= all.len() {
        all.subrange(from as int, from + PAGE_SIZE)
    } else {
        all.subrange(from as int, all.len() as int)
    }
}

/// A copy of all unread events in their order.
pub fn flattened_events(snapshot: &NotificationSnapshot) -> (r: Vec<ProviderNotificationEvent>)
    ensures
        r@ == events_of(snapshot.unread_by_pull_request@),
{
    let ghost parts = snapshot.unread_by_pull_request@.map_values(
        |s: PullRequestUnreadSummary| s.unread_events@,
    );
    let mut out: Vec<ProviderNotificationEvent> = Vec::new();
    let mut i: usize = 0;
    proof {
        assert(parts.take(0) =~= Seq::<Seq<ProviderNotificationEvent>>::empty());
    }
    while i < snapshot.unread_by_pull_request.len()
        invariant
            i <= snapshot.unread_by_pull_request@.len(),
            parts == snapshot.unread_by_pull_request@.map_values(
                |s: PullRequestUnreadSummary| s.unread_events@,
            ),
            out@ == seqs::concat(parts.take(i as int)),
        decreases snapshot.unread_by_pull_request.len() - i,
    {
        let events = &snapshot.unread_by_pull_request[i].unread_events;
        let ghost before = out@;
        let mut j: usize = 0;
        while j < events.len()
            invariant
                j <= events@.len(),
                out@ =~= before + events@.take(j as int),
            decreases events.len() - j,
        {
            out.push(events[j].clone());
            j += 1;
        }
        proof {
            assert(events@.take(j as int) =~= events@);
            seqs::lemma_concat_step(parts, i as int);
        }
        i += 1;
    }
    proof {
        assert(parts.take(i as int) =~= parts);
    }
    out
}

pub fn unread_count(snapshot: &NotificationSnapshot) -> (r: usize)
    ensures
        r as nat == events_of(snapshot.unread_by_pull_request@).len(),
{
    flattened_events(snapshot).len()
}

pub fn max_page(snapshot: &Option<NotificationSnapshot>) -> (r: usize)
    ensures
        r as nat == last_page(unread_of(optional_snapshot(*snapshot))),
{
    let count: usize = match snapshot {
        Some(s) => unread_count(s),
        None => 0,
    };
    count.saturating_sub(1) / PAGE_SIZE
}

// ---------------------------------------------------------------------------
// Transitions of one account

/// The account after its repositories were all deselected.
pub open spec fn deselected(s: AccountStateView) -> AccountStateView {
    AccountStateView {
        selection: Seq::empty(),
        selected_repositories: Seq::empty(),
        selection_generation: bump(s.selection_generation),
        generation: bump(s.generation),
        displayed: None,
        snapshot: None,
        conditional_cache: Seq::empty(),
        ..s
    }
}

/// The account after a selection was made for it. Another selection than before makes every
/// earlier poll and display stale.
pub open spec fn reselected(
    s: AccountStateView,
    account: AccountView,
    scopes: Seq<NotificationRepositoryScopeView>,
    selection: Seq<char>,
    preference: Option<bool>,
) -> AccountStateView {
    let told = AccountStateView {
        account: Some(account),
        consent_enabled: match preference {
            Some(p) => p,
            None => s.consent_enabled,
        },
        selected_repositories: scopes,
        ..s
    };
    if s.selection == selection {
        told
    } else {
        AccountStateView {
            selection,
            selection_generation: bump(s.selection_generation),
            generation: bump(s.generation),
            displayed: None,
            snapshot: None,
            conditional_cache: Seq::empty(),
            ..told
        }
    }
}

/// Whether a poll may begin.
pub open spec fn may_poll(s: AccountStateView, now: Moment, due: bool) -> bool {
    !s.in_flight && s.server_gate.lets_through(now) && due
}

/// The account while a poll runs.
pub open spec fn polling(s: AccountStateView) -> AccountStateView {
    AccountStateView {
        generation: bump(s.generation),
        in_flight: true,
        active_poll_generation: Some(bump(s.generation)),
        ..s
    }
}

/// Whether a poll that was started for `token` may still change the account.
pub open spec fn token_current(
    token: ControllerTokenView,
    lifetime: u64,
    key: Seq<char>,
    s: AccountStateView,
) -> bool {
    &&& token.lifetime == lifetime
    &&& token.account_key == key
    &&& token.selection == s.selection
    &&& token.generation == s.generation
}

pub fn token_matches(
    token: &ControllerToken,
    lifetime: u64,
    account_key: &str,
    state: &AccountViewState,
) -> (r: bool)
    ensures
        r == token_current(token@, lifetime, account_key@, state@),
{
    token.lifetime == lifetime && text::same_text(&token.account_key, account_key)
        && token.selection == state.selection && token.generation == state.generation
}

/// Whether the poll of `token` is the one that holds the lane of the account.
pub open spec fn holds_lane(
    token: ControllerTokenView,
    lifetime: u64,
    key: Seq<char>,
    s: AccountStateView,
) -> bool {
    &&& token.lifetime == lifetime
    &&& token.account_key == key
    &&& s.active_poll_generation == Some(token.generation)
}

/// The server gate after the delays of a completed poll. The interval counts only where the poll is
/// still current; a rate limit counts in any case.
pub open spec fn gate_after(
    s: AccountStateView,
    current: bool,
    poll: NotificationPollDirective,
    now: Moment,
    wall: Option<u64>,
) -> NotificationServerGate {
    let first = match poll.x_poll_interval {
        Some(delay) => if current {
            s.server_gate.delayed(delay, ServerGateReason::PollInterval, now, wall)
        } else {
            s.server_gate
        },
        None => s.server_gate,
    };
    match poll.rate_limit {
        Some(delay) => first.delayed(delay, ServerGateReason::RateLimit, now, wall),
        None => first,
    }
}

/// The account after the poll that held its lane gave it up.
pub open spec fn released(
    s: AccountStateView,
    token: ControllerTokenView,
    lifetime: u64,
    key: Seq<char>,
    account: AccountView,
    poll: NotificationPollDirective,
    now: Moment,
    wall: Option<u64>,
) -> AccountStateView {
    AccountStateView {
        server_gate: if s.account == Some(account) {
            gate_after(s, token_current(token, lifetime, key, s), poll, now, wall)
        } else {
            s.server_gate
        },
        active_poll_generation: None,
        in_flight: false,
        ..s
    }
}

/// What stands on the screen for an account.
pub open spec fn on_display(s: AccountStateView) -> Option<DisplayedView> {
    match s.snapshot {
        None => None,
        Some(snapshot) => {
            let shown = page_of(events_of(snapshot.unread_by_pull_request), s.page as nat);
            if shown.len() == 0 {
                None
            } else {
                Some(
                    DisplayedView {
                        state_version: snapshot.state_version,
                        events: shown.map_values(|e: ProviderNotificationEvent| e.identity@),
                    },
                )
            }
        },
    }
}

pub open spec fn captured(s: AccountStateView) -> AccountStateView {
    AccountStateView { displayed: on_display(s), ..s }
}

impl AccountViewState {
    pub fn unknown() -> (r: Self)
        ensures
            r@ == unknown_account(),
            r.selection@.len() == 0,
    {
        let r = AccountViewState {
            account: None,
            selection: String::new(),
            selected_repositories: Vec::new(),
            generation: 0,
            selection_generation: 0,
            mark_generation: 0,
            in_flight: false,
            active_poll_generation: None,
            snapshot: None,
            stale_notice: None,
            page: 0,
            displayed: None,
            consent_generation: 0,
            consent_enabled: false,
            consent_transition: false,
            conditional_cache: NotificationConditionalCache::empty(),
            server_gate: NotificationServerGate::new(),
        };
        proof {
            assert(r@ =~= unknown_account());
        }
        r
    }

    pub fn deselect(&mut self)
        ensures
            final(self)@ == deselected(old(self)@),
    {
        self.selection = String::new();
        self.selected_repositories = Vec::new();
        self.selection_generation = self.selection_generation.saturating_add(1);
        self.generation = self.generation.saturating_add(1);
        self.displayed = None;
        self.snapshot = None;
        self.conditional_cache = NotificationConditionalCache::empty();
        proof {
            assert(self@ =~= deselected(old(self)@));
        }
    }

    /// Makes a selection; returns whether it differs from the one before.
    pub fn reselect(
        &mut self,
        account: &Account,
        repositories: &Vec<Repository>,
        selection: &String,
        preference: Option<bool>,
    ) -> (r: bool)
        ensures
            final(self)@ == reselected(
                old(self)@,
                account@,
                selection::scopes(repositories@),
                selection@,
                preference,
            ),
            r == (old(self)@.selection != selection@),
    {
        self.account = Some(account.clone());
        if let Some(p) = preference {
            self.consent_enabled = p;
        }
        self.selected_repositories = selection::scopes_of(repositories);
        let changed: bool = self.selection != *selection;
        if changed {
            self.selection = selection.clone();
            self.selection_generation = self.selection_generation.saturating_add(1);
            self.generation = self.generation.saturating_add(1);
            self.displayed = None;
            self.snapshot = None;
            self.conditional_cache = NotificationConditionalCache::empty();
        }
        proof {
            assert(self@ =~= reselected(
                old(self)@,
                account@,
                selection::scopes(repositories@),
                selection@,
                preference,
            ));
        }
        changed
    }

    pub fn begin_poll(&mut self)
        ensures
            final(self)@ == polling(old(self)@),
    {
        self.generation = self.generation.saturating_add(1);
        self.in_flight = true;
        self.active_poll_generation = Some(self.generation);
        proof {
            assert(self@ =~= polling(old(self)@));
        }
    }

    pub fn release(
        &mut self,
        token: &ControllerToken,
        lifetime: u64,
        key: &str,
        account: &Account,
        poll: &NotificationPollDirective,
        now: Moment,
        wall: Option<u64>,
    )
        ensures
            final(self)@ == released(
                old(self)@,
                token@,
                lifetime,
                key@,
                account@,
                *poll,
                now,
                wall,
            ),
    {
        let same_account: bool = match &self.account {
            Some(a) => a.same(account),
            None => false,
        };
        if same_account {
            if token_matches(token, lifetime, key, self) {
                if let Some(delay) = &poll.x_poll_interval {
                    self.server_gate.apply(delay, ServerGateReason::PollInterval, now, wall);
                }
            }
            if let Some(delay) = &poll.rate_limit {
                self.server_gate.apply(delay, ServerGateReason::RateLimit, now, wall);
            }
        }
        self.active_poll_generation = None;
        self.in_flight = false;
        proof {
            assert(self@ =~= released(
                old(self)@,
                token@,
                lifetime,
                key@,
                account@,
                *poll,
                now,
                wall,
            ));
        }
    }

    pub fn capture(&mut self)
        ensures
            final(self)@ == captured(old(self)@),
    {
        let displayed: Option<DisplayedNotificationSet> = match &self.snapshot {
            None => None,
            Some(snapshot) => {
                let all = flattened_events(snapshot);
                let mut events: Vec<NotificationEventIdentity> = Vec::new();
                let ghost shown = page_of(all@, self.page as nat);
                let ghost wanted = shown.map_values(|e: ProviderNotificationEvent| e.identity@);
                if self.page <= all.len() / PAGE_SIZE {
                    let from: usize = self.page * PAGE_SIZE;
                    let to: usize = if all.len() - from >= PAGE_SIZE {
                        from + PAGE_SIZE
                    } else {
                        all.len()
                    };
                    let mut i: usize = from;
                    while i < to
                        invariant
                            from <= i <= to <= all@.len(),
                            events@.len() == i - from,
                            forall|k: int|
                                0 <= k < i - from ==> (#[trigger] events@[k])@ == all@[from
                                    + k].identity@,
                        decreases to - i,
                    {
                        events.push(all[i].identity.clone());
                        i += 1;
                    }
                    proof {
                        assert(identity_views(events@) =~= wanted);
                    }
                } else {
                    proof {
                        assert(self.page * PAGE_SIZE > all@.len());
                        assert(identity_views(events@) =~= wanted);
                    }
                }
                if events.len() == 0 {
                    proof {
                        assert(identity_views(events@).len() == 0);
                    }
                    None
                } else {
                    proof {
                        assert(identity_views(events@).len() > 0);
                    }
                    Some(
                        DisplayedNotificationSet { state_version: snapshot.state_version, events },
                    )
                }
            },
        };
        self.displayed = displayed;
        proof {
            assert(self@ =~= captured(old(self)@));
        }
    }
}

// ---------------------------------------------------------------------------
// Laws of one account

/// While a poll holds the lane of an account, no second poll begins.
pub proof fn law_one_poll_at_a_time(s: AccountStateView, now: Moment, due: bool)
    ensures
        !may_poll(polling(s), now, due),
{
}

/// Deselecting makes a poll that was current stale for good, and no later selection makes it
/// current again.
pub proof fn law_deselection_retires_polls(
    s: AccountStateView,
    token: ControllerTokenView,
    lifetime: u64,
    key: Seq<char>,
    account: AccountView,
    scopes: Seq<NotificationRepositoryScopeView>,
    selection: Seq<char>,
    preference: Option<bool>,
)
    requires
        token_current(token, lifetime, key, s),
        s.generation < u64::MAX - 1,
    ensures
        !token_current(token, lifetime, key, deselected(s)),
        !token_current(
            token,
            lifetime,
            key,
            reselected(deselected(s), account, scopes, selection, preference),
        ),
{
}

/// Another selection makes a poll stale, and going back to the first selection does not make
/// it current again.
pub proof fn law_selection_away_and_back_retires_polls(
    s: AccountStateView,
    token: ControllerTokenView,
    lifetime: u64,
    key: Seq<char>,
    account: AccountView,
    scopes: Seq<NotificationRepositoryScopeView>,
    away: Seq<char>,
    preference: Option<bool>,
)
    requires
        token_current(token, lifetime, key, s),
        away != s.selection,
        s.generation < u64::MAX - 1,
    ensures
        !token_current(token, lifetime, key, reselected(s, account, scopes, away, preference)),
        !token_current(
            token,
            lifetime,
            key,
            reselected(
                reselected(s, account, scopes, away, preference),
                account,
                scopes,
                s.selection,
                preference,
            ),
        ),
{
}

/// A selection keeps the lane of the poll that runs: only its completion gives it up.
pub proof fn law_selection_keeps_the_lane(
    s: AccountStateView,
    account: AccountView,
    scopes: Seq<NotificationRepositoryScopeView>,
    selection: Seq<char>,
    preference: Option<bool>,
)
    ensures
        reselected(s, account, scopes, selection, preference).in_flight == s.in_flight,
        reselected(s, account, scopes, selection, preference).active_poll_generation
            == s.active_poll_generation,
        deselected(s).in_flight == s.in_flight,
        deselected(s).active_poll_generation == s.active_poll_generation,
{
}

/// The completion of a poll gives the lane up once: its second report holds no lane.
pub proof fn law_lane_is_given_up_once(
    s: AccountStateView,
    token: ControllerTokenView,
    lifetime: u64,
    key: Seq<char>,
    account: AccountView,
    poll: NotificationPollDirective,
    now: Moment,
    wall: Option<u64>,
)
    ensures
        !holds_lane(
            token,
            lifetime,
            key,
            released(s, token, lifetime, key, account, poll, now, wall),
        ),
{
}

} // verus!

//! The notifications of all accounts: polls, consent, delivery and marks.

use vstd::prelude::*;
use vstd::string::*;

use crate::domain::Account;
use crate::notifications::account;
use crate::notifications::account::{AccountStateView, AccountViewState};
use crate::notifications::model;
use crate::notifications::model::{
    DisplayedNotificationSet, NotificationRoute, NotificationSnapshot, ProviderNotificationEvent,
    QueuedNotification,
};
use crate::notifications::selection;
use crate::seqs;
use crate::text;
use crate::text_map;
use crate::text_map::TextMap;

verus! {

/// What a change of consent was started for.
#[derive(Debug, PartialEq, Eq)]
pub struct ConsentToken {
    pub lifetime: u64,
    pub account_key: String,
    pub generation: u64,
}

#[verifier::ext_equal]
pub struct ConsentTokenView {
    pub lifetime: u64,
    pub account_key: Seq<char>,
    pub generation: u64,
}

impl View for ConsentToken {
    type V = ConsentTokenView;

    open spec fn view(&self) -> ConsentTokenView {
        ConsentTokenView {
            lifetime: self.lifetime,
            account_key: self.account_key@,
            generation: self.generation,
        }
    }
}

impl Clone for ConsentToken {
    fn clone(&self) -> (r: Self)
        ensures
            r == *self,
    {
        ConsentToken {
            lifetime: self.lifetime,
            account_key: self.account_key.clone(),
            generation: self.generation,
        }
    }
}

/// What a mark of read events was started for.
#[derive(Debug, PartialEq, Eq)]
pub struct MarkToken {
    pub lifetime: u64,
    pub account_key: String,
    pub selection: String,
    pub selection_generation: u64,
    pub generation: u64,
}

#[verifier::ext_equal]
pub struct MarkTokenView {
    pub lifetime: u64,
    pub account_key: Seq<char>,
    pub selection: Seq<char>,
    pub selection_generation: u64,
    pub generation: u64,
}

impl View for MarkToken {
    type V = MarkTokenView;

    open spec fn view(&self) -> MarkTokenView {
        MarkTokenView {
            lifetime: self.lifetime,
            account_key: self.account_key@,
            selection: self.selection@,
            selection_generation: self.selection_generation,
            generation: self.generation,
        }
    }
}

impl Clone for MarkToken {
    fn clone(&self) -> (r: Self)
        ensures
            r == *self,
    {
        MarkToken {
            lifetime: self.lifetime,
            account_key: self.account_key.clone(),
            selection: self.selection.clone(),
            selection_generation: self.selection_generation,
            generation: self.generation,
        }
    }
}

/// What a reservation of alerts was started for.
#[derive(Debug, PartialEq, Eq)]
pub struct AdmissionToken {
    pub lifetime: u64,
    pub account_key: String,
    pub selection: String,
    pub selection_generation: u64,
    pub consent_generation: u64,
}

#[verifier::ext_equal]
pub struct AdmissionTokenView {
    pub lifetime: u64,
    pub account_key: Seq<char>,
    pub selection: Seq<char>,
    pub selection_generation: u64,
    pub consent_generation: u64,
}

impl View for AdmissionToken {
    type V = AdmissionTokenView;

    open spec fn view(&self) -> AdmissionTokenView {
        AdmissionTokenView {
            lifetime: self.lifetime,
            account_key: self.account_key@,
            selection: self.selection@,
            selection_generation: self.selection_generation,
            consent_generation: self.consent_generation,
        }
    }
}

impl Clone for AdmissionToken {
    fn clone(&self) -> (r: Self)
        ensures
            r == *self,
    {
        AdmissionToken {
            lifetime: self.lifetime,
            account_key: self.account_key.clone(),
            selection: self.selection.clone(),
            selection_generation: self.selection_generation,
            consent_generation: self.consent_generation,
        }
    }
}

/// A change of consent that is to be stored.
pub struct ConsentWork {
    pub token: ConsentToken,
    pub account: Account,
    pub enabled: bool,
}

pub struct ConsentCompletion {
    pub token: ConsentToken,
    pub account: Account,
    pub enabled: bool,
    pub result: Result<(), String>,
}

/// Displayed events that are to be stored as read.
pub struct MarkReadWork {
    pub token: MarkToken,
    pub account: Account,
    pub displayed: DisplayedNotificationSet,
}

pub struct MarkReadCompletion {
    pub token: MarkToken,
    pub account: Account,
    pub result: Result<NotificationSnapshot, String>,
}

/// New events that may become alerts once the registry has reserved them.
pub struct AdmissionWork {
    pub token: AdmissionToken,
    pub account: Account,
    pub events: Vec<ProviderNotificationEvent>,
}

pub struct AdmissionCompletion {
    pub token: AdmissionToken,
    pub notifications: Vec<QueuedNotification>,
    pub result: Result<(), String>,
}

/// What is read from the private store at the start.
pub struct NotificationBootstrap {
    pub preferences: TextMap<bool>,
    pub routes: Vec<(String, NotificationRoute)>,
}

/// The stored state that the controller works with once it is there.
pub struct NotificationRuntime {
    pub preferences: TextMap<bool>,
}

pub struct NotificationController {
    pub lifetime: u64,
    pub runtime: Option<NotificationRuntime>,
    pub accounts: TextMap<AccountViewState>,
    pub open: bool,
    pub initialization_error: Option<String>,
    pub queued: Vec<QueuedNotification>,
    pub routes: TextMap<NotificationRoute>,
    pub route_order: Vec<String>,
}

// ---------------------------------------------------------------------------
// States of accounts

pub open spec fn state_views(accounts: Map<Seq<char>, AccountViewState>) -> Map<
    Seq<char>,
    AccountStateView,
> {
    Map::new(|k: Seq<char>| accounts.contains_key(k), |k: Seq<char>| accounts[k]@)
}

pub open spec fn state_or_unknown(
    states: Map<Seq<char>, AccountStateView>,
    key: Seq<char>,
) -> AccountStateView {
    if states.contains_key(key) {
        states[key]
    } else {
        account::unknown_account()
    }
}

/// Every state changed in one way.
pub open spec fn each_state(
    states: Map<Seq<char>, AccountStateView>,
    f: spec_fn(AccountStateView) -> AccountStateView,
) -> Map<Seq<char>, AccountStateView> {
    Map::new(|k: Seq<char>| states.contains_key(k), |k: Seq<char>| f(states[k]))
}

pub open spec fn each_captured(states: Map<Seq<char>, AccountStateView>) -> Map<
    Seq<char>,
    AccountStateView,
> {
    each_state(states, |s: AccountStateView| account::captured(s))
}

/// The alerts of all accounts but one.
pub open spec fn without_account(queued: Seq<QueuedNotification>, key: Seq<char>) -> Seq<
    QueuedNotification,
> {
    queued.filter(|q: QueuedNotification| q.account_key@ != key)
}

pub(crate) fn drop_account(queued: &Vec<QueuedNotification>, key: &str) -> (r: Vec<QueuedNotification>)
    ensures
        r@ == without_account(queued@, key@),
{
    let ghost p = |q: QueuedNotification| q.account_key@ != key@;
    let mut out: Vec<QueuedNotification> = Vec::new();
    let mut i: usize = 0;
    proof {
        seqs::lemma_filter_nothing(queued@, p);
    }
    while i < queued.len()
        invariant
            i <= queued@.len(),
            p == (|q: QueuedNotification| q.account_key@ != key@),
            out@ == queued@.take(i as int).filter(p),
        decreases queued.len() - i,
    {
        proof {
            seqs::lemma_filter_step(queued@, i as int, p);
        }
        if !text::same_text(&queued[i].account_key, key) {
            out.push(queued[i].clone());
        }
        i += 1;
    }
    proof {
        assert(queued@.take(i as int) =~= queued@);
    }
    out
}

pub(crate) fn drop_accounts(queued: &Vec<QueuedNotification>, keys: &Vec<String>) -> (r: Vec<
    QueuedNotification,
>)
    ensures
        r@ == queued@.filter(
            |q: QueuedNotification| !text::texts(keys@).contains(q.account_key@),
        ),
{
    let ghost p = |q: QueuedNotification| !text::texts(keys@).contains(q.account_key@);
    let mut out: Vec<QueuedNotification> = Vec::new();
    let mut i: usize = 0;
    proof {
        seqs::lemma_filter_nothing(queued@, p);
    }
    while i < queued.len()
        invariant
            i <= queued@.len(),
            p == (|q: QueuedNotification| !text::texts(keys@).contains(q.account_key@)),
            out@ == queued@.take(i as int).filter(p),
        decreases queued.len() - i,
    {
        proof {
            seqs::lemma_filter_step(queued@, i as int, p);
        }
        if !text::is_among(keys, &queued[i].account_key) {
            out.push(queued[i].clone());
        }
        i += 1;
    }
    proof {
        assert(queued@.take(i as int) =~= queued@);
    }
    out
}

impl NotificationController {
    pub open spec fn states(self) -> Map<Seq<char>, AccountStateView> {
        state_views(self.accounts@)
    }

    /// Everything but the accounts is as in `other`.
    pub open spec fn only_accounts_differ(self, other: Self) -> bool {
        &&& self.lifetime == other.lifetime
        &&& self.runtime == other.runtime
        &&& self.open == other.open
        &&& self.initialization_error == other.initialization_error
        &&& self.queued == other.queued
        &&& self.routes == other.routes
        &&& self.route_order == other.route_order
    }

    /// Everything but the accounts and the queue is as in `other`.
    pub open spec fn only_accounts_and_queue_differ(self, other: Self) -> bool {
        &&& self.lifetime == other.lifetime
        &&& self.runtime == other.runtime
        &&& self.open == other.open
        &&& self.initialization_error == other.initialization_error
        &&& self.routes == other.routes
        &&& self.route_order == other.route_order
    }

    pub(crate) fn put(&mut self, key: String, state: AccountViewState)
        ensures
            final(self).states() == old(self).states().insert(key@, state@),
            final(self).accounts@ == old(self).accounts@.insert(key@, state),
            final(self).only_accounts_differ(*old(self)),
    {
        self.accounts.insert(key, state);
        proof {
            assert(self.states() =~= old(self).states().insert(key@, state@));
        }
    }

    pub(crate) fn take(&mut self, key: &str) -> (r: Option<AccountViewState>)
        ensures
            final(self).states() == old(self).states().remove(key@),
            final(self).accounts@ == old(self).accounts@.remove(key@),
            final(self).only_accounts_differ(*old(self)),
            r is Some == old(self).states().contains_key(key@),
            r matches Some(s) ==> s@ == old(self).states()[key@] && s == old(self).accounts@[key@],
    {
        let r = self.accounts.remove(key);
        proof {
            assert(self.states() =~= old(self).states().remove(key@));
        }
        r
    }

    pub fn new(lifetime: u64) -> (r: Self)
        ensures
            r.lifetime == lifetime,
            r.runtime is None,
            r.states() == Map::<Seq<char>, AccountStateView>::empty(),
            !r.open,
            r.initialization_error is None,
            r.queued@.len() == 0,
            r.routes@ == Map::<Seq<char>, NotificationRoute>::empty(),
            r.route_order@.len() == 0,
    {
        let r = NotificationController {
            lifetime,
            runtime: None,
            accounts: TextMap::new(),
            open: false,
            initialization_error: None,
            queued: Vec::new(),
            routes: TextMap::new(),
            route_order: Vec::new(),
        };
        proof {
            assert(r.states() =~= Map::<Seq<char>, AccountStateView>::empty());
        }
        r
    }

    pub fn is_ready(&self) -> (r: bool)
        ensures
            r == self.runtime is Some,
    {
        self.runtime.is_some()
    }

    pub fn is_open(&self) -> (r: bool)
        ensures
            r == self.open,
    {
        self.open
    }

    /// Takes note of what stands on the screen of every account.
    pub fn capture_displayed(&mut self)
        ensures
            final(self).states() == each_captured(old(self).states()),
            final(self).only_accounts_differ(*old(self)),
    {
        let keys = self.accounts.keys();
        let ghost start = self.states();
        let mut i: usize = 0;
        while i < keys.len()
            invariant
                i <= keys@.len(),
                text_map::lists_keys(keys@, old(self).accounts@),
                start == old(self).states(),
                self.only_accounts_differ(*old(self)),
                forall|k: Seq<char>| #[trigger]
                    self.states().contains_key(k) == start.contains_key(k),
                forall|j: int|
                    0 <= j < i ==> self.states()[(#[trigger] keys@[j])@] == account::captured(
                        start[keys@[j]@],
                    ),
                forall|j: int|
                    i <= j < keys@.len() ==> self.states()[(#[trigger] keys@[j])@]
                        == start[keys@[j]@],
            decreases keys.len() - i,
        {
            proof {
                text::law_text_order_is_irreflexive(keys@[i as int]@);
                assert(start.contains_key(keys@[i as int]@));
                assert(self.states().contains_key(keys@[i as int]@));
            }
            if let Some(state) = self.take(&keys[i]) {
                let mut state = state;
                state.capture();
                self.put(keys[i].clone(), state);
            }
            i += 1;
        }
        proof {
            assert forall|k: Seq<char>| start.contains_key(k) implies self.states()[k]
                == account::captured(start[k]) by {
                assert(old(self).accounts@.contains_key(k));
                let j = choose|j: int| 0 <= j < keys@.len() && (#[trigger] keys@[j])@ == k;
                assert(keys@[j]@ == k);
            }
            assert(self.states() =~= each_captured(start));
        }
    }

    pub fn toggle_open(&mut self)
        ensures
            final(self).open == !old(self).open,
            final(self).states() == if final(self).open {
                each_captured(old(self).states())
            } else {
                old(self).states()
            },
            final(self).lifetime == old(self).lifetime,
            final(self).runtime == old(self).runtime,
            final(self).initialization_error == old(self).initialization_error,
            final(self).queued == old(self).queued,
            final(self).routes == old(self).routes,
            final(self).route_order == old(self).route_order,
    {
        self.open = !self.open;
        if self.open {
            self.capture_displayed();
        }
    }

    /// Closes the panel. What is unread stays unread.
    pub fn close(&mut self)
        ensures
            !final(self).open,
            final(self).states() == each_state(
                old(self).states(),
                |s: AccountStateView| AccountStateView { displayed: None, ..s },
            ),
            final(self).lifetime == old(self).lifetime,
            final(self).runtime == old(self).runtime,
            final(self).initialization_error == old(self).initialization_error,
            final(self).queued == old(self).queued,
            final(self).routes == old(self).routes,
            final(self).route_order == old(self).route_order,
    {
        self.open = false;
        let keys = self.accounts.keys();
        let ghost start = self.states();
        let ghost opened = *self;
        let mut i: usize = 0;
        while i < keys.len()
            invariant
                i <= keys@.len(),
                text_map::lists_keys(keys@, old(self).accounts@),
                start == old(self).states(),
                self.only_accounts_differ(opened),
                forall|k: Seq<char>| #[trigger]
                    self.states().contains_key(k) == start.contains_key(k),
                forall|j: int|
                    0 <= j < i ==> self.states()[(#[trigger] keys@[j])@] == (AccountStateView {
                        displayed: None,
                        ..start[keys@[j]@]
                    }),
                forall|j: int|
                    i <= j < keys@.len() ==> self.states()[(#[trigger] keys@[j])@]
                        == start[keys@[j]@],
            decreases keys.len() - i,
        {
            proof {
                text::law_text_order_is_irreflexive(keys@[i as int]@);
                assert(start.contains_key(keys@[i as int]@));
                assert(self.states().contains_key(keys@[i as int]@));
            }
            if let Some(state) = self.take(&keys[i]) {
                let mut state = state;
                state.displayed = None;
                proof {
                    assert(state@ =~= AccountStateView { displayed: None, ..start[keys@[i as int]@] });
                }
                self.put(keys[i].clone(), state);
            }
            i += 1;
        }
        proof {
            let f = |s: AccountStateView| AccountStateView { displayed: None, ..s };
            assert forall|k: Seq<char>| start.contains_key(k) implies self.states()[k] == f(
                start[k],
            ) by {
                assert(old(self).accounts@.contains_key(k));
                let j = choose|j: int| 0 <= j < keys@.len() && (#[trigger] keys@[j])@ == k;
                assert(keys@[j]@ == k);
            }
            assert(self.states() =~= each_state(start, f));
        }
    }

    // -----------------------------------------------------------------------
    // Start

    /// Takes the stored state, or the reason why it cannot be read.
    pub fn complete_bootstrap(
        &mut self,
        lifetime: u64,
        result: Result<NotificationBootstrap, String>,
    ) -> (r: bool)
        ensures
            r == (lifetime == old(self).lifetime && result is Ok),
            final(self).lifetime == old(self).lifetime,
            final(self).open == old(self).open,
            final(self).queued == old(self).queued,
            lifetime != old(self).lifetime ==> *final(self) == *old(self),
            lifetime == old(self).lifetime ==> match result {
                Ok(stored) => {
                    &&& final(self).runtime matches Some(runtime) && runtime.preferences@
                        == stored.preferences@
                    &&& final(self).initialization_error is None
                    &&& final(self).states() == with_preferences(
                        old(self).states(),
                        stored.preferences@,
                    )
                    &&& final(self).routes@ == routes_by_tag(stored.routes@)
                    &&& text::texts(final(self).route_order@) == stored.routes@.map_values(
                        |p: (String, NotificationRoute)| p.0@,
                    )
                },
                Err(e) => {
                    &&& final(self).runtime == old(self).runtime
                    &&& final(self).states() == old(self).states()
                    &&& final(self).routes == old(self).routes
                    &&& final(self).route_order == old(self).route_order
                    &&& text::option_text(final(self).initialization_error) == Some(
                        "Local notification state unavailable; no OS notification requested: "@ + e@,
                    )
                },
            },
    {
        if lifetime != self.lifetime {
            return false;
        }
        match result {
            Err(e) => {
                let mut text: String = "Local notification state unavailable; no OS notification requested: ".to_owned();
                text.append(&e);
                self.initialization_error = Some(text);
                false
            },
            Ok(stored) => {
                let ghost start = self.states();
                let ghost preferences = stored.preferences@;
                let keys = stored.preferences.keys();
                let mut i: usize = 0;
                while i < keys.len()
                    invariant
                        i <= keys@.len(),
                        text_map::lists_keys(keys@, preferences),
                        preferences == stored.preferences@,
                        start == old(self).states(),
                        self.only_accounts_differ(*old(self)),
                        forall|k: Seq<char>| #[trigger]
                            self.states().contains_key(k) == (start.contains_key(k) || exists|
                                j: int,
                            |
                                0 <= j < i && (#[trigger] keys@[j])@ == k),
                        forall|j: int|
                            0 <= j < i ==> self.states()[(#[trigger] keys@[j])@]
                                == preferring(start, keys@[j]@, preferences[keys@[j]@]),
                        forall|k: Seq<char>|
                            start.contains_key(k) && !(exists|j: int|
                                0 <= j < i && (#[trigger] keys@[j])@ == k)
                                ==> #[trigger] self.states()[k] == start[k],
                    decreases keys.len() - i,
                {
                    let ghost before = self.states();
                    let ghost key = keys@[i as int]@;
                    proof {
                        text::law_text_order_is_irreflexive(key);
                        assert(!exists|j: int| 0 <= j < i && (#[trigger] keys@[j])@ == key);
                        assert(before.contains_key(key) == start.contains_key(key));
                    }
                    let enabled: bool = match stored.preferences.get(&keys[i]) {
                        Some(b) => *b,
                        None => false,
                    };
                    let mut state = match self.take(&keys[i]) {
                        Some(s) => s,
                        None => AccountViewState::unknown(),
                    };
                    state.consent_enabled = enabled;
                    proof {
                        assert(preferences.contains_key(key));
                        assert(state@ =~= preferring(start, key, preferences[key]));
                    }
                    self.put(keys[i].clone(), state);
                    proof {
                        let after = self.states();
                        assert(after == before.remove(key).insert(key, state@));
                        assert forall|k: Seq<char>| #[trigger] after.contains_key(k) == (
                        start.contains_key(k) || exists|j: int|
                            0 <= j < i + 1 && (#[trigger] keys@[j])@ == k) by {
                            if k == key {
                                assert(keys@[i as int]@ == k);
                            } else {
                                assert(before.contains_key(k) == (start.contains_key(k) || exists|
                                    j: int,
                                |
                                    0 <= j < i && (#[trigger] keys@[j])@ == k));
                            }
                        }
                        assert forall|k: Seq<char>|
                            start.contains_key(k) && !(exists|j: int|
                                0 <= j < i + 1 && (#[trigger] keys@[j])@ == k) implies #[trigger] after[k]
                            == start[k] by {
                            assert(keys@[i as int]@ != k);
                            assert(before[k] == start[k]);
                        }
                    }
                    i += 1;
                }
                proof {
                    assert(self.states() =~= with_preferences(start, preferences)) by {
                        assert forall|k: Seq<char>| #[trigger]
                            self.states().contains_key(k) == with_preferences(
                                start,
                                preferences,
                            ).contains_key(k) by {
                            if preferences.contains_key(k) {
                                let j = choose|j: int|
                                    0 <= j < keys@.len() && (#[trigger] keys@[j])@ == k;
                                assert(keys@[j]@ == k);
                            }
                        }
                        assert forall|k: Seq<char>| #[trigger]
                            self.states().contains_key(k) implies self.states()[k]
                            == with_preferences(start, preferences)[k] by {
                            if preferences.contains_key(k) {
                                let j = choose|j: int|
                                    0 <= j < keys@.len() && (#[trigger] keys@[j])@ == k;
                                assert(keys@[j]@ == k);
                            }
                        }
                    }
                }
                let mut routes: TextMap<NotificationRoute> = TextMap::new();
                let mut order: Vec<String> = Vec::new();
                let mut n: usize = 0;
                proof {
                    assert(stored.routes@.take(0) =~= Seq::<(String, NotificationRoute)>::empty());
                }
                while n < stored.routes.len()
                    invariant
                        n <= stored.routes@.len(),
                        routes@ == routes_by_tag(stored.routes@.take(n as int)),
                        order@.len() == n,
                        forall|k: int|
                            0 <= k < n ==> (#[trigger] order@[k])@ == stored.routes@[k].0@,
                    decreases stored.routes.len() - n,
                {
                    proof {
                        assert(stored.routes@.take(n + 1).drop_last() =~= stored.routes@.take(
                            n as int,
                        ));
                        assert(stored.routes@.take(n + 1).last() == stored.routes@[n as int]);
                    }
                    order.push(stored.routes[n].0.clone());
                    routes.insert(stored.routes[n].0.clone(), stored.routes[n].1.clone());
                    n += 1;
                }
                proof {
                    assert(stored.routes@.take(n as int) =~= stored.routes@);
                    assert(text::texts(order@) =~= stored.routes@.map_values(
                        |p: (String, NotificationRoute)| p.0@,
                    ));
                }
                self.routes = routes;
                self.route_order = order;
                self.runtime = Some(NotificationRuntime { preferences: stored.preferences });
                self.initialization_error = None;
                true
            },
        }
    }
}

pub open spec fn preferring(
    states: Map<Seq<char>, AccountStateView>,
    key: Seq<char>,
    enabled: bool,
) -> AccountStateView {
    AccountStateView { consent_enabled: enabled, ..state_or_unknown(states, key) }
}

/// The states with the stored consent; an account that is only stored comes into being.
pub open spec fn with_preferences(
    states: Map<Seq<char>, AccountStateView>,
    preferences: Map<Seq<char>, bool>,
) -> Map<Seq<char>, AccountStateView> {
    Map::new(
        |k: Seq<char>| states.contains_key(k) || preferences.contains_key(k),
        |k: Seq<char>|
            if preferences.contains_key(k) {
                preferring(states, k, preferences[k])
            } else {
                states[k]
            },
    )
}

/// The routes under their tags; of two with one tag the later stays.
pub open spec fn routes_by_tag(routes: Seq<(String, NotificationRoute)>) -> Map<
    Seq<char>,
    NotificationRoute,
>
    decreases routes.len(),
{
    if routes.len() == 0 {
        Map::empty()
    } else {
        routes_by_tag(routes.drop_last()).insert(routes.last().0@, routes.last().1)
    }
}

} // verus!

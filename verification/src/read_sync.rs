//! Reads of each account: when one may begin, which results are still wanted, and in what order
//! deferred ones go on. Whatever becomes of a result, it releases its account and extends what
//! the server asked for.

use vstd::prelude::*;
use vstd::string::*;

use std::collections::BTreeMap;

use crate::clock;
use crate::clock::{Moment, ServerDelay};
use crate::domain::{Account, AccountView};
use crate::text;
use crate::text_map::TextMap;

pub mod laws;

verus! {

pub const RATE_DEFERRED_NOTICE: &'static str = "Refresh deferred by GitHub rate limiting; current data is unchanged.";

pub const RATE_SUSPENDED_NOTICE: &'static str = "Refresh paused by an unrepresentable GitHub rate-limit delay; current data is unchanged.";

pub const POLL_DEFERRED_NOTICE: &'static str = "Refresh deferred by GitHub's polling interval; current data is unchanged.";

pub const PROVIDER_UNAVAILABLE_NOTICE: &'static str = "GitHub read unavailable; historical data is unchanged.";

pub const DATA_INCOMPLETE_NOTICE: &'static str = "GitHub returned incomplete read data; current data is unchanged.";

/// Where refreshed data goes. A tab or repository that is replaced gets a new lane, even where
/// it shows the same.
#[derive(Clone, Copy, Debug, PartialEq, Eq, Structural)]
pub struct RefreshLane {
    pub id: u64,
}

/// A cache of validators that the caller keeps, by its number. The first is empty.
#[derive(Clone, Copy, Debug, PartialEq, Eq, Structural)]
pub struct GeneralReadCache {
    pub number: u64,
}

/// What a server asks for beside its answer.
#[derive(Clone, Copy, Debug, PartialEq, Eq, Structural)]
pub struct GeneralReadDirective {
    pub x_poll_interval: Option<ServerDelay>,
    pub rate_limit: Option<ServerDelay>,
}

/// What a view is about. The revision counts observations.
#[derive(Debug, PartialEq, Eq)]
pub struct RefreshContext {
    pub workspace: u64,
    pub repository: String,
    pub resource: Option<u64>,
    pub revision: u64,
}

#[verifier::ext_equal]
pub struct RefreshContextView {
    pub workspace: u64,
    pub repository: Seq<char>,
    pub resource: Option<u64>,
    pub revision: u64,
}

impl View for RefreshContext {
    type V = RefreshContextView;

    open spec fn view(&self) -> RefreshContextView {
        RefreshContextView {
            workspace: self.workspace,
            repository: self.repository@,
            resource: self.resource,
            revision: self.revision,
        }
    }
}

impl Clone for RefreshContext {
    fn clone(&self) -> (r: Self)
        ensures
            r == *self,
    {
        RefreshContext {
            workspace: self.workspace,
            repository: self.repository.clone(),
            resource: self.resource,
            revision: self.revision,
        }
    }
}

impl RefreshContext {
    /// Whether two values agree in every field.
    pub fn same(&self, other: &Self) -> (r: bool)
        ensures
            r == (self@ == other@),
    {
        self.workspace == other.workspace
            && self.repository == other.repository
            && self.resource == other.resource
            && self.revision == other.revision
    }
}

/// A read that was begun.
#[derive(Debug, PartialEq, Eq)]
pub struct ReadToken {
    pub lifetime: u64,
    pub account_key: String,
    pub generation: u64,
}

#[verifier::ext_equal]
pub struct ReadTokenView {
    pub lifetime: u64,
    pub account_key: Seq<char>,
    pub generation: u64,
}

impl View for ReadToken {
    type V = ReadTokenView;

    open spec fn view(&self) -> ReadTokenView {
        ReadTokenView {
            lifetime: self.lifetime,
            account_key: self.account_key@,
            generation: self.generation,
        }
    }
}

impl Clone for ReadToken {
    fn clone(&self) -> (r: Self)
        ensures
            r == *self,
    {
        ReadToken {
            lifetime: self.lifetime,
            account_key: self.account_key.clone(),
            generation: self.generation,
        }
    }
}

impl ReadToken {
    /// Whether two values agree in every field.
    pub fn same(&self, other: &Self) -> (r: bool)
        ensures
            r == (self@ == other@),
    {
        self.lifetime == other.lifetime
            && self.account_key == other.account_key
            && self.generation == other.generation
    }
}

/// A refresh that was begun.
#[derive(Debug, PartialEq, Eq)]
pub struct RefreshToken {
    pub lane: RefreshLane,
    pub context: RefreshContext,
    pub read: ReadToken,
}

#[verifier::ext_equal]
pub struct RefreshTokenView {
    pub lane: RefreshLane,
    pub context: RefreshContextView,
    pub read: ReadTokenView,
}

impl View for RefreshToken {
    type V = RefreshTokenView;

    open spec fn view(&self) -> RefreshTokenView {
        RefreshTokenView {
            lane: self.lane,
            context: self.context@,
            read: self.read@,
        }
    }
}

/// A read that may begin, with the cache to begin from.
pub struct ReadAdmission {
    pub token: ReadToken,
    pub cache: GeneralReadCache,
}

impl ReadAdmission {
    pub fn into_parts(self) -> (r: (ReadToken, GeneralReadCache))
        ensures
            r == (self.token, self.cache),
    {
        (self.token, self.cache)
    }
}

/// A refresh that may begin, with the cache to begin from.
pub struct RefreshAdmission {
    pub token: RefreshToken,
    pub cache: GeneralReadCache,
}

impl RefreshAdmission {
    pub fn into_parts(self) -> (r: (RefreshToken, GeneralReadCache))
        ensures
            r == (self.token, self.cache),
    {
        (self.token, self.cache)
    }
}

/// Only a completion that released an operation of this controller may have work go on.
#[derive(Debug, PartialEq, Eq)]
pub enum RefreshCompletion<T, E> {
    Ignored,
    Discarded,
    Applied(Result<T, E>),
}

#[derive(Clone, Copy, Debug, PartialEq, Eq, Structural)]
pub enum RefreshState {
    Active { explicit_pending: bool },
    Deferred { explicit: bool },
}

#[derive(Clone, Copy, Debug, PartialEq, Eq, Structural)]
pub enum FloorReason {
    PollInterval,
    RateLimit,
}

/// Why a read cannot begin: another one of the account runs, or the server asked for a delay.
#[derive(Clone, Copy, Debug, PartialEq, Eq)]
pub enum ReadDeferral {
    Busy,
    Server(&'static str),
}

pub enum ReadDeferralView {
    Busy,
    Server(Seq<char>),
}

impl View for ReadDeferral {
    type V = ReadDeferralView;

    open spec fn view(&self) -> ReadDeferralView {
        match self {
            ReadDeferral::Busy => ReadDeferralView::Busy,
            ReadDeferral::Server(notice) => ReadDeferralView::Server(notice@),
        }
    }
}

#[derive(Clone, Copy, Debug, PartialEq, Eq, Structural)]
pub struct CompletionDisposition {
    pub matching_operation_released: bool,
    pub payload_accepted: bool,
}

pub open spec fn nothing_released() -> CompletionDisposition {
    CompletionDisposition { matching_operation_released: false, payload_accepted: false }
}

// ---------------------------------------------------------------------------
// Floors

/// Until when a server asked to be left alone.
#[derive(Clone, Copy, Debug, PartialEq, Eq, Structural)]
pub struct ServerFloor {
    pub not_before: Option<Moment>,
    pub suspended: bool,
    pub reason: Option<FloorReason>,
}

pub open spec fn no_floor() -> ServerFloor {
    ServerFloor { not_before: None, suspended: false, reason: None }
}

/// The floor after one more delay: it never gets lower.
pub open spec fn raised(
    floor: ServerFloor,
    delay: ServerDelay,
    reason: FloorReason,
    now: Moment,
    wall: Option<u64>,
) -> ServerFloor {
    match clock::deadline_of(delay, now, wall) {
        None => ServerFloor { suspended: true, reason: Some(reason), ..floor },
        Some(deadline) => if floor.not_before is None || floor.not_before->0.before(deadline) {
            ServerFloor { not_before: Some(deadline), reason: Some(reason), ..floor }
        } else {
            floor
        },
    }
}

pub open spec fn floor_notice(floor: ServerFloor, now: Moment) -> Option<Seq<char>> {
    if floor.suspended {
        Some(RATE_SUSPENDED_NOTICE@)
    } else if floor.not_before matches Some(deadline) && now.before(deadline) {
        match floor.reason {
            Some(FloorReason::RateLimit) => Some(RATE_DEFERRED_NOTICE@),
            Some(FloorReason::PollInterval) => Some(POLL_DEFERRED_NOTICE@),
            None => None,
        }
    } else {
        None
    }
}

pub open spec fn directed(
    floor: ServerFloor,
    directive: GeneralReadDirective,
    now: Moment,
    wall: Option<u64>,
) -> ServerFloor {
    let limited = match directive.rate_limit {
        Some(delay) => raised(floor, delay, FloorReason::RateLimit, now, wall),
        None => floor,
    };
    match directive.x_poll_interval {
        Some(delay) => raised(limited, delay, FloorReason::PollInterval, now, wall),
        None => limited,
    }
}

pub open spec fn optional_str(s: Option<&'static str>) -> Option<Seq<char>> {
    match s {
        Some(x) => Some(x@),
        None => None,
    }
}

impl ServerFloor {
    fn apply(&mut self, delay: &ServerDelay, reason: FloorReason, now: Moment, wall: Option<u64>)
        ensures
            *final(self) == raised(*old(self), *delay, reason, now, wall),
    {
        match clock::deadline(delay, now, wall) {
            None => {
                self.suspended = true;
                self.reason = Some(reason);
            },
            Some(deadline) => {
                let later: bool = match &self.not_before {
                    None => true,
                    Some(current) => current.is_before(&deadline),
                };
                if later {
                    self.not_before = Some(deadline);
                    self.reason = Some(reason);
                }
            },
        }
    }

    fn direct(&mut self, directive: &GeneralReadDirective, now: Moment, wall: Option<u64>)
        ensures
            *final(self) == directed(*old(self), *directive, now, wall),
    {
        if let Some(delay) = &directive.rate_limit {
            self.apply(delay, FloorReason::RateLimit, now, wall);
        }
        if let Some(delay) = &directive.x_poll_interval {
            self.apply(delay, FloorReason::PollInterval, now, wall);
        }
    }

    pub fn notice(&self, now: Moment) -> (r: Option<&'static str>)
        ensures
            optional_str(r) == floor_notice(*self, now),
    {
        if self.suspended {
            return Some(RATE_SUSPENDED_NOTICE);
        }
        let active: bool = match &self.not_before {
            Some(deadline) => now.is_before(deadline),
            None => false,
        };
        if !active {
            return None;
        }
        match self.reason {
            Some(FloorReason::RateLimit) => Some(RATE_DEFERRED_NOTICE),
            Some(FloorReason::PollInterval) => Some(POLL_DEFERRED_NOTICE),
            None => None,
        }
    }
}

// ---------------------------------------------------------------------------
// Accounts

#[derive(Clone, Copy, Debug, PartialEq, Eq, Structural)]
pub struct AccountState {
    pub generation: u64,
    pub active_generation: Option<u64>,
    pub cache: GeneralReadCache,
    pub floor: ServerFloor,
}

pub open spec fn fresh_account() -> AccountState {
    AccountState {
        generation: 0,
        active_generation: None,
        cache: GeneralReadCache { number: 0 },
        floor: no_floor(),
    }
}

pub open spec fn account_key_of(account: AccountView) -> Seq<char> {
    "github\u{1f}"@ + text::lower(account.host) + "\u{1f}"@ + text::lower(account.login)
}

pub fn account_key(account: &Account) -> (r: String)
    ensures
        r@ == account_key_of(account@),
{
    let mut out: String = "github\u{1f}".to_owned();
    out.append(&text::to_lower(&account.host));
    out.append("\u{1f}");
    out.append(&text::to_lower(&account.login));
    out
}

pub struct GeneralReadController {
    pub lifetime: u64,
    pub accounts: TextMap<AccountState>,
    pub refreshes: BTreeMap<u64, RefreshState>,
    pub followup_cursor: usize,
}

#[verifier::ext_equal]
pub struct ReadsView {
    pub lifetime: u64,
    pub accounts: Map<Seq<char>, AccountState>,
    pub refreshes: Map<u64, RefreshState>,
    pub followup_cursor: usize,
}

impl View for GeneralReadController {
    type V = ReadsView;

    open spec fn view(&self) -> ReadsView {
        ReadsView {
            lifetime: self.lifetime,
            accounts: self.accounts@,
            refreshes: self.refreshes@,
            followup_cursor: self.followup_cursor,
        }
    }
}

pub open spec fn account_of(r: ReadsView, key: Seq<char>) -> AccountState {
    if r.accounts.contains_key(key) {
        r.accounts[key]
    } else {
        fresh_account()
    }
}

/// Why a read of an account cannot begin now.
pub open spec fn deferral_of(state: AccountState, now: Moment) -> Option<ReadDeferralView> {
    match floor_notice(state.floor, now) {
        Some(notice) => Some(ReadDeferralView::Server(notice)),
        None => if state.active_generation is Some {
            Some(ReadDeferralView::Busy)
        } else {
            None
        },
    }
}

pub open spec fn one_more(n: u64) -> u64 {
    if n < u64::MAX {
        (n + 1) as u64
    } else {
        n
    }
}

pub open spec fn begun(r: ReadsView, account: AccountView, now: Moment) -> ReadsView {
    let key = account_key_of(account);
    let state = account_of(r, key);
    ReadsView {
        accounts: r.accounts.insert(
            key,
            if deferral_of(state, now) is Some {
                state
            } else {
                AccountState {
                    generation: one_more(state.generation),
                    active_generation: Some(one_more(state.generation)),
                    ..state
                }
            },
        ),
        ..r
    }
}

pub open spec fn begun_token(r: ReadsView, account: AccountView) -> ReadTokenView {
    let key = account_key_of(account);
    ReadTokenView {
        lifetime: r.lifetime,
        account_key: key,
        generation: one_more(account_of(r, key).generation),
    }
}

pub open spec fn directive_applied(
    r: ReadsView,
    account: AccountView,
    directive: GeneralReadDirective,
    now: Moment,
    wall: Option<u64>,
) -> ReadsView {
    let key = account_key_of(account);
    let state = account_of(r, key);
    ReadsView {
        accounts: r.accounts.insert(
            key,
            AccountState { floor: directed(state.floor, directive, now, wall), ..state },
        ),
        ..r
    }
}

/// Whether a token is for the read that its account has running.
pub open spec fn releases(r: ReadsView, token: ReadTokenView) -> bool {
    token.lifetime == r.lifetime && r.accounts.contains_key(token.account_key)
        && r.accounts[token.account_key].active_generation == Some(token.generation)
}

pub open spec fn completed(
    r: ReadsView,
    token: ReadTokenView,
    directive: GeneralReadDirective,
    cache: Option<GeneralReadCache>,
    accept: bool,
    now: Moment,
    wall: Option<u64>,
) -> ReadsView {
    if token.lifetime != r.lifetime || !r.accounts.contains_key(token.account_key) {
        r
    } else {
        let state = r.accounts[token.account_key];
        let paced = AccountState { floor: directed(state.floor, directive, now, wall), ..state };
        ReadsView {
            accounts: r.accounts.insert(
                token.account_key,
                if state.active_generation == Some(token.generation) {
                    AccountState {
                        active_generation: None,
                        cache: if accept && cache is Some {
                            cache->0
                        } else {
                            state.cache
                        },
                        ..paced
                    }
                } else {
                    paced
                },
            ),
            ..r
        }
    }
}

pub open spec fn disposition_of(r: ReadsView, token: ReadTokenView, accept: bool) -> CompletionDisposition {
    if releases(r, token) {
        CompletionDisposition { matching_operation_released: true, payload_accepted: accept }
    } else {
        nothing_released()
    }
}

// ---------------------------------------------------------------------------
// Refreshes

pub open spec fn is_active(r: ReadsView, lane: RefreshLane) -> bool {
    r.refreshes.contains_key(lane.id) && r.refreshes[lane.id] is Active
}

pub open spec fn is_deferred(refreshes: Map<u64, RefreshState>, lane: RefreshLane) -> bool {
    refreshes.contains_key(lane.id) && refreshes[lane.id] is Deferred
}

pub open spec fn refresh_requested(
    r: ReadsView,
    lane: RefreshLane,
    account: AccountView,
    explicit: bool,
    now: Moment,
) -> ReadsView {
    if is_active(r, lane) {
        ReadsView {
            refreshes: r.refreshes.insert(
                lane.id,
                RefreshState::Active {
                    explicit_pending: r.refreshes[lane.id]->explicit_pending || explicit,
                },
            ),
            ..r
        }
    } else {
        let remembered = is_deferred(r.refreshes, lane) && r.refreshes[lane.id]->explicit;
        let after = begun(r, account, now);
        ReadsView {
            refreshes: r.refreshes.insert(
                lane.id,
                if deferral_of(account_of(r, account_key_of(account)), now) is Some {
                    RefreshState::Deferred { explicit: explicit || remembered }
                } else {
                    RefreshState::Active { explicit_pending: false }
                },
            ),
            ..after
        }
    }
}

/// Whether the result of a refresh is still wanted: it is about what is shown now, and no
/// newer one was asked for.
pub open spec fn is_wanted(
    r: ReadsView,
    token: RefreshTokenView,
    current: Option<RefreshContextView>,
) -> bool {
    current == Some(token.context) && r.refreshes.contains_key(token.lane.id)
        && r.refreshes[token.lane.id] == (RefreshState::Active { explicit_pending: false })
}

/// The refreshes once one is over: what was asked for meanwhile is deferred.
pub open spec fn lane_released(refreshes: Map<u64, RefreshState>, lane: RefreshLane) -> Map<
    u64,
    RefreshState,
> {
    if refreshes.contains_key(lane.id) && refreshes[lane.id] == (RefreshState::Active {
        explicit_pending: true,
    }) {
        refreshes.insert(lane.id, RefreshState::Deferred { explicit: true })
    } else {
        refreshes.remove(lane.id)
    }
}

pub open spec fn refresh_completed(
    r: ReadsView,
    token: RefreshTokenView,
    current: Option<RefreshContextView>,
    succeeded: bool,
    cache: Option<GeneralReadCache>,
    directive: GeneralReadDirective,
    now: Moment,
    wall: Option<u64>,
) -> ReadsView {
    let after = completed(
        r,
        token.read,
        directive,
        cache,
        is_wanted(r, token, current) && succeeded,
        now,
        wall,
    );
    if releases(r, token.read) {
        ReadsView { refreshes: lane_released(r.refreshes, token.lane), ..after }
    } else {
        after
    }
}

/// The lanes among these whose refresh is deferred.
pub open spec fn deferred_among(live: Seq<RefreshLane>, refreshes: Map<u64, RefreshState>) -> Seq<
    RefreshLane,
>
    decreases live.len(),
{
    if live.len() == 0 {
        Seq::empty()
    } else {
        let before = deferred_among(live.drop_last(), refreshes);
        if is_deferred(refreshes, live.last()) {
            before.push(live.last())
        } else {
            before
        }
    }
}

pub open spec fn rotated(s: Seq<RefreshLane>, by: int) -> Seq<RefreshLane> {
    s.skip(by) + s.take(by)
}

pub open spec fn is_live(live: Seq<RefreshLane>, id: u64) -> bool {
    exists|i: int| 0 <= i < live.len() && (#[trigger] live[i]).id == id
}

/// The refreshes without those of lanes that are gone.
pub open spec fn retained(refreshes: Map<u64, RefreshState>, live: Seq<RefreshLane>) -> Map<
    u64,
    RefreshState,
> {
    refreshes.restrict(Set::new(|id: u64| is_live(live, id)))
}

pub open spec fn next_cursor(cursor: usize) -> usize {
    if cursor == usize::MAX {
        0
    } else {
        (cursor + 1) as usize
    }
}

fn lane_state(refreshes: &BTreeMap<u64, RefreshState>, lane: RefreshLane) -> (r: Option<
    RefreshState,
>)
    ensures
        r == if refreshes@.contains_key(lane.id) {
            Some(refreshes@[lane.id])
        } else {
            None
        },
{
    broadcast use {vstd::std_specs::btree::group_btree_axioms, vstd::laws_cmp::group_laws_cmp};

    match refreshes.get(&lane.id) {
        Some(state) => Some(*state),
        None => None,
    }
}

fn set_lane(refreshes: &mut BTreeMap<u64, RefreshState>, lane: RefreshLane, state: RefreshState)
    ensures
        final(refreshes)@ == old(refreshes)@.insert(lane.id, state),
{
    broadcast use {vstd::std_specs::btree::group_btree_axioms, vstd::laws_cmp::group_laws_cmp};

    refreshes.insert(lane.id, state);
}

fn drop_lane(refreshes: &mut BTreeMap<u64, RefreshState>, lane: RefreshLane)
    ensures
        final(refreshes)@ == old(refreshes)@.remove(lane.id),
{
    broadcast use {vstd::std_specs::btree::group_btree_axioms, vstd::laws_cmp::group_laws_cmp};

    refreshes.remove(&lane.id);
}

impl GeneralReadController {
    /// A controller. Each one gets a lifetime of its own.
    pub fn new(lifetime: u64) -> (r: Self)
        ensures
            r@ == (ReadsView {
                lifetime,
                accounts: Map::empty(),
                refreshes: Map::empty(),
                followup_cursor: 0,
            }),
    {
        GeneralReadController {
            lifetime,
            accounts: TextMap::new(),
            refreshes: BTreeMap::new(),
            followup_cursor: 0,
        }
    }

    fn account_state(&self, key: &str) -> (r: AccountState)
        ensures
            r == account_of(self@, key@),
    {
        match self.accounts.get(key) {
            Some(state) => *state,
            None => AccountState {
                generation: 0,
                active_generation: None,
                cache: GeneralReadCache { number: 0 },
                floor: ServerFloor { not_before: None, suspended: false, reason: None },
            },
        }
    }

    /// Begins a read of an account, unless one runs or the server asked for a delay.
    pub fn begin_at(&mut self, account: &Account, now: Moment) -> (r: Result<
        ReadAdmission,
        ReadDeferral,
    >)
        ensures
            final(self)@ == begun(old(self)@, account@, now),
            match r {
                Ok(admission) => deferral_of(
                    account_of(old(self)@, account_key_of(account@)),
                    now,
                ) is None && admission.token@ == begun_token(old(self)@, account@)
                    && admission.cache == account_of(
                    old(self)@,
                    account_key_of(account@),
                ).cache,
                Err(deferral) => deferral_of(
                    account_of(old(self)@, account_key_of(account@)),
                    now,
                ) == Some(deferral@),
            },
    {
        let key = account_key(account);
        let mut state = self.account_state(&key);
        if let Some(notice) = state.floor.notice(now) {
            self.accounts.insert(key, state);
            return Err(ReadDeferral::Server(notice));
        }
        if state.active_generation.is_some() {
            self.accounts.insert(key, state);
            return Err(ReadDeferral::Busy);
        }
        let cache = state.cache;
        state.generation = state.generation.saturating_add(1);
        state.active_generation = Some(state.generation);
        let token = ReadToken {
            lifetime: self.lifetime,
            account_key: key.clone(),
            generation: state.generation,
        };
        self.accounts.insert(key, state);
        Ok(ReadAdmission { token, cache })
    }

    /// Takes on what a server asked for beside its answer to a mutation. No read begins or ends.
    pub fn apply_server_directive_at(
        &mut self,
        account: &Account,
        directive: &GeneralReadDirective,
        now: Moment,
        wall: Option<u64>,
    )
        ensures
            final(self)@ == directive_applied(old(self)@, account@, *directive, now, wall),
    {
        let key = account_key(account);
        let mut state = self.account_state(&key);
        state.floor.direct(directive, now, wall);
        self.accounts.insert(key, state);
    }

    /// Ends a read. What the server asked for counts also where the read is not the running one.
    pub fn complete_at(
        &mut self,
        token: &ReadToken,
        directive: &GeneralReadDirective,
        returned_cache: Option<GeneralReadCache>,
        accept_payload: bool,
        now: Moment,
        wall: Option<u64>,
    ) -> (r: CompletionDisposition)
        ensures
            r == disposition_of(old(self)@, token@, accept_payload),
            final(self)@ == completed(
                old(self)@,
                token@,
                *directive,
                returned_cache,
                accept_payload,
                now,
                wall,
            ),
    {
        if token.lifetime != self.lifetime {
            return CompletionDisposition {
                matching_operation_released: false,
                payload_accepted: false,
            };
        }
        let mut state = match self.accounts.get(&token.account_key) {
            Some(state) => *state,
            None => {
                return CompletionDisposition {
                    matching_operation_released: false,
                    payload_accepted: false,
                };
            },
        };
        state.floor.direct(directive, now, wall);
        let matching: bool = match state.active_generation {
            Some(generation) => generation == token.generation,
            None => false,
        };
        if !matching {
            self.accounts.insert(token.account_key.clone(), state);
            return CompletionDisposition {
                matching_operation_released: false,
                payload_accepted: false,
            };
        }
        if accept_payload {
            if let Some(cache) = returned_cache {
                state.cache = cache;
            }
        }
        state.active_generation = None;
        self.accounts.insert(token.account_key.clone(), state);
        CompletionDisposition {
            matching_operation_released: true,
            payload_accepted: accept_payload,
        }
    }

    /// Asks for an observation. Polls join the one that runs; an explicit request has a newer
    /// one follow it. What is deferred is remembered and holds no lane.
    pub fn request_refresh_at(
        &mut self,
        lane: RefreshLane,
        account: &Account,
        context: RefreshContext,
        explicit: bool,
        now: Moment,
    ) -> (r: Result<Option<RefreshAdmission>, ReadDeferral>)
        ensures
            final(self)@ == refresh_requested(old(self)@, lane, account@, explicit, now),
            match r {
                Ok(None) => is_active(old(self)@, lane),
                Ok(Some(admission)) => !is_active(old(self)@, lane) && deferral_of(
                    account_of(old(self)@, account_key_of(account@)),
                    now,
                ) is None && admission.token@ == (RefreshTokenView {
                    lane,
                    context: context@,
                    read: begun_token(old(self)@, account@),
                }) && admission.cache == account_of(
                    old(self)@,
                    account_key_of(account@),
                ).cache,
                Err(deferral) => !is_active(old(self)@, lane) && deferral_of(
                    account_of(old(self)@, account_key_of(account@)),
                    now,
                ) == Some(deferral@),
            },
    {
        let mut remembered: bool = false;
        match lane_state(&self.refreshes, lane) {
            Some(RefreshState::Active { explicit_pending }) => {
                set_lane(
                    &mut self.refreshes,
                    lane,
                    RefreshState::Active { explicit_pending: explicit_pending || explicit },
                );
                return Ok(None);
            },
            Some(RefreshState::Deferred { explicit: earlier }) => {
                remembered = earlier;
            },
            None => {},
        }
        match self.begin_at(account, now) {
            Ok(admission) => {
                set_lane(
                    &mut self.refreshes,
                    lane,
                    RefreshState::Active { explicit_pending: false },
                );
                let (read, cache) = admission.into_parts();
                Ok(Some(RefreshAdmission { token: RefreshToken { lane, context, read }, cache }))
            },
            Err(deferral) => {
                set_lane(
                    &mut self.refreshes,
                    lane,
                    RefreshState::Deferred { explicit: explicit || remembered },
                );
                Err(deferral)
            },
        }
    }

    /// Ends a refresh. Its result is handed back only where it is still wanted.
    pub fn complete_refresh_at<T, E>(
        &mut self,
        token: RefreshToken,
        current: &Option<RefreshContext>,
        result: Result<T, E>,
        cache: Option<GeneralReadCache>,
        directive: &GeneralReadDirective,
        now: Moment,
        wall: Option<u64>,
    ) -> (r: RefreshCompletion<T, E>)
        ensures
            final(self)@ == refresh_completed(
                old(self)@,
                token@,
                optional_context(*current),
                result is Ok,
                cache,
                *directive,
                now,
                wall,
            ),
            r == if !releases(old(self)@, token@.read) {
                RefreshCompletion::Ignored
            } else if is_wanted(old(self)@, token@, optional_context(*current)) {
                RefreshCompletion::Applied(result)
            } else {
                RefreshCompletion::Discarded
            },
    {
        let same: bool = match current {
            Some(context) => context.same(&token.context),
            None => false,
        };
        let state = lane_state(&self.refreshes, token.lane);
        let running: bool = match state {
            Some(RefreshState::Active { explicit_pending }) => !explicit_pending,
            _ => false,
        };
        let accepted: bool = same && running;
        let succeeded: bool = result.is_ok();
        let disposition = self.complete_at(
            &token.read,
            directive,
            cache,
            accepted && succeeded,
            now,
            wall,
        );
        if !disposition.matching_operation_released {
            return RefreshCompletion::Ignored;
        }
        match state {
            Some(RefreshState::Active { explicit_pending: true }) => {
                set_lane(
                    &mut self.refreshes,
                    token.lane,
                    RefreshState::Deferred { explicit: true },
                );
            },
            _ => {
                drop_lane(&mut self.refreshes, token.lane);
            },
        }
        if accepted {
            RefreshCompletion::Applied(result)
        } else {
            RefreshCompletion::Discarded
        }
    }

    /// The lanes whose refresh is deferred, each time beginning one further on. Lanes that are
    /// not among the live ones are forgotten.
    pub fn pending_refreshes(&mut self, live: &Vec<RefreshLane>) -> (r: Vec<RefreshLane>)
        ensures
            ({
                let pending = deferred_among(live@, old(self)@.refreshes);
                &&& final(self)@ == (ReadsView {
                    refreshes: retained(old(self)@.refreshes, live@),
                    followup_cursor: if pending.len() == 0 {
                        old(self)@.followup_cursor
                    } else {
                        next_cursor(old(self)@.followup_cursor)
                    },
                    ..old(self)@
                })
                &&& r@ == if pending.len() == 0 {
                    Seq::empty()
                } else {
                    rotated(pending, old(self)@.followup_cursor as int % pending.len() as int)
                }
            }),
    {
        let ghost all = self.refreshes@;
        let mut kept: BTreeMap<u64, RefreshState> = BTreeMap::new();
        let mut pending: Vec<RefreshLane> = Vec::new();
        let mut i: usize = 0;
        proof {
            assert(kept@ =~= retained(all, live@.take(0)));
        }
        while i < live.len()
            invariant
                all == self.refreshes@,
                i <= live@.len(),
                kept@ == retained(all, live@.take(i as int)),
                pending@ == deferred_among(live@.take(i as int), all),
            decreases live.len() - i,
        {
            let lane = live[i];
            let ghost before = live@.take(i as int);
            let ghost after = live@.take(i + 1);
            proof {
                assert(after.drop_last() =~= before);
                assert(after.last() == lane);
                assert forall|id: u64| is_live(after, id) == (is_live(before, id) || id == lane.id) by {
                    if is_live(before, id) {
                        let k = choose|k: int| 0 <= k < before.len() && (#[trigger] before[k]).id == id;
                        assert(after[k].id == id);
                    }
                    if id == lane.id {
                        assert(after[i as int].id == id);
                    }
                    if is_live(after, id) && id != lane.id {
                        let k = choose|k: int| 0 <= k < after.len() && (#[trigger] after[k]).id == id;
                        assert(before[k].id == id);
                    }
                }
            }
            if let Some(state) = lane_state(&self.refreshes, lane) {
                set_lane(&mut kept, lane, state);
                if let RefreshState::Deferred { .. } = state {
                    pending.push(lane);
                }
            }
            proof {
                assert(kept@ =~= retained(all, after));
            }
            i += 1;
        }
        proof {
            assert(live@.take(i as int) =~= live@);
        }
        self.refreshes = kept;
        if pending.len() == 0 {
            return pending;
        }
        let offset: usize = self.followup_cursor % pending.len();
        let out = rotate(&pending, offset);
        self.followup_cursor = if self.followup_cursor == usize::MAX {
            0
        } else {
            self.followup_cursor + 1
        };
        out
    }

    pub fn refresh_active(&self, lane: RefreshLane) -> (r: bool)
        ensures
            r == is_active(self@, lane),
    {
        match lane_state(&self.refreshes, lane) {
            Some(RefreshState::Active { .. }) => true,
            _ => false,
        }
    }

    pub fn refresh_deferred(&self, lane: RefreshLane) -> (r: bool)
        ensures
            r == is_deferred(self@.refreshes, lane),
    {
        match lane_state(&self.refreshes, lane) {
            Some(RefreshState::Deferred { .. }) => true,
            _ => false,
        }
    }

    /// Forgets a refresh that does not run.
    pub fn clear_smoke_pending_after_witness(&mut self, lane: RefreshLane)
        requires
            !is_active(old(self)@, lane),
        ensures
            final(self)@ == (ReadsView {
                refreshes: old(self)@.refreshes.remove(lane.id),
                ..old(self)@
            }),
    {
        drop_lane(&mut self.refreshes, lane);
    }

    /// Whether a read of an account could begin now.
    pub fn selected_account_readiness_at(&self, account: &Account, now: Moment) -> (r: Result<
        (),
        ReadDeferral,
    >)
        ensures
            match r {
                Ok(_) => deferral_of(account_of(self@, account_key_of(account@)), now) is None,
                Err(deferral) => deferral_of(
                    account_of(self@, account_key_of(account@)),
                    now,
                ) == Some(deferral@),
            },
    {
        let state = self.account_state(&account_key(account));
        if let Some(notice) = state.floor.notice(now) {
            return Err(ReadDeferral::Server(notice));
        }
        if state.active_generation.is_some() {
            return Err(ReadDeferral::Busy);
        }
        Ok(())
    }

    pub fn notice_at(&self, account: &Account, now: Moment) -> (r: Option<&'static str>)
        ensures
            optional_str(r) == floor_notice(
                account_of(self@, account_key_of(account@)).floor,
                now,
            ),
    {
        self.account_state(&account_key(account)).floor.notice(now)
    }
}

pub open spec fn optional_context(c: Option<RefreshContext>) -> Option<RefreshContextView> {
    match c {
        Some(x) => Some(x@),
        None => None,
    }
}

fn rotate(lanes: &Vec<RefreshLane>, by: usize) -> (r: Vec<RefreshLane>)
    requires
        by < lanes@.len(),
    ensures
        r@ == rotated(lanes@, by as int),
{
    let mut out: Vec<RefreshLane> = Vec::new();
    let mut i: usize = by;
    while i < lanes.len()
        invariant
            by <= i <= lanes@.len(),
            out@ =~= lanes@.subrange(by as int, i as int),
        decreases lanes.len() - i,
    {
        out.push(lanes[i]);
        i += 1;
    }
    let mut j: usize = 0;
    while j < by
        invariant
            j <= by < lanes@.len(),
            out@ =~= lanes@.skip(by as int) + lanes@.take(j as int),
        decreases by - j,
    {
        out.push(lanes[j]);
        j += 1;
    }
    out
}

// ---------------------------------------------------------------------------
// Laws

/// A delay never shortens an earlier one: whoever had to wait still has to.
pub proof fn law_floors_only_rise(
    floor: ServerFloor,
    directive: GeneralReadDirective,
    now: Moment,
    wall: Option<u64>,
    at: Moment,
)
    requires
        floor.not_before is Some ==> floor.reason is Some,
    ensures
        floor_notice(floor, at) is Some ==> floor_notice(directed(floor, directive, now, wall), at)
            is Some,
        directed(floor, directive, now, wall).not_before is Some ==> directed(
            floor,
            directive,
            now,
            wall,
        ).reason is Some,
        floor.suspended ==> directed(floor, directive, now, wall).suspended,
{
}

/// Each account has its own floor and its own running read.
pub proof fn law_accounts_are_independent(
    r: ReadsView,
    a: AccountView,
    b: AccountView,
    directive: GeneralReadDirective,
    now: Moment,
    wall: Option<u64>,
)
    requires
        account_key_of(a) != account_key_of(b),
    ensures
        account_of(begun(r, a, now), account_key_of(b)) == account_of(r, account_key_of(b)),
        account_of(directive_applied(r, a, directive, now, wall), account_key_of(b)) == account_of(
            r,
            account_key_of(b),
        ),
{
}

/// An account runs one read at a time: a second one is deferred until the first is completed
/// by its own token, after which the account is free again.
pub proof fn law_one_read_per_account(
    r: ReadsView,
    account: AccountView,
    now: Moment,
    token: ReadTokenView,
    directive: GeneralReadDirective,
    cache: Option<GeneralReadCache>,
    accept: bool,
    wall: Option<u64>,
)
    requires
        deferral_of(account_of(r, account_key_of(account)), now) is None,
    ensures
        ({
            let running = begun(r, account, now);
            let own = begun_token(r, account);
            let key = account_key_of(account);
            &&& deferral_of(account_of(running, key), now) == Some(ReadDeferralView::Busy)
            &&& releases(running, own)
            &&& account_of(
                completed(running, own, directive, cache, accept, now, wall),
                key,
            ).active_generation is None
            &&& token.account_key == key && token != own ==> account_of(
                completed(running, token, directive, cache, accept, now, wall),
                key,
            ).active_generation == Some(own.generation)
        }),
{
}

/// A token of another controller changes nothing at all.
pub proof fn law_foreign_tokens_change_nothing(
    r: ReadsView,
    token: ReadTokenView,
    directive: GeneralReadDirective,
    cache: Option<GeneralReadCache>,
    accept: bool,
    now: Moment,
    wall: Option<u64>,
)
    requires
        token.lifetime != r.lifetime,
    ensures
        completed(r, token, directive, cache, accept, now, wall) == r,
        disposition_of(r, token, accept) == nothing_released(),
{
}

/// A result that is not the running read's extends the floor and nothing else.
pub proof fn law_stale_results_only_extend_the_floor(
    r: ReadsView,
    token: ReadTokenView,
    directive: GeneralReadDirective,
    cache: Option<GeneralReadCache>,
    accept: bool,
    now: Moment,
    wall: Option<u64>,
    key: Seq<char>,
)
    requires
        !releases(r, token),
        r.accounts.contains_key(key),
    ensures
        ({
            let before = r.accounts[key];
            let after = completed(r, token, directive, cache, accept, now, wall).accounts[key];
            &&& after.generation == before.generation
            &&& after.active_generation == before.active_generation
            &&& after.cache == before.cache
        }),
        completed(r, token, directive, cache, accept, now, wall).refreshes == r.refreshes,
{
}

/// An explicit request while a refresh runs makes its result unwanted, whatever it is, and has
/// a newer refresh follow.
pub proof fn law_explicit_requests_supersede(
    r: ReadsView,
    token: RefreshTokenView,
    account: AccountView,
    current: Option<RefreshContextView>,
    succeeded: bool,
    cache: Option<GeneralReadCache>,
    directive: GeneralReadDirective,
    now: Moment,
    wall: Option<u64>,
)
    requires
        is_active(r, token.lane),
        releases(r, token.read),
    ensures
        ({
            let asked = refresh_requested(r, token.lane, account, true, now);
            let after = refresh_completed(
                asked,
                token,
                current,
                succeeded,
                cache,
                directive,
                now,
                wall,
            );
            &&& !is_wanted(asked, token, current)
            &&& is_deferred(after.refreshes, token.lane)
            &&& after.refreshes[token.lane.id]->explicit
        }),
        refresh_requested(r, token.lane, account, false, now).refreshes[token.lane.id]
            == r.refreshes[token.lane.id],
{
}

/// A lane that was forgotten gets no result: what was begun for it is discarded.
pub proof fn law_forgotten_lanes_get_nothing(
    r: ReadsView,
    live: Seq<RefreshLane>,
    token: RefreshTokenView,
    current: Option<RefreshContextView>,
)
    requires
        !is_live(live, token.lane.id),
    ensures
        !is_wanted(
            ReadsView { refreshes: retained(r.refreshes, live), ..r },
            token,
            current,
        ),
{
}

/// Every deferred lane gets its turn at the front: as the cursor goes on, the lane in front
/// goes on with it, around.
pub proof fn law_each_deferred_lane_comes_first_in_turn(
    pending: Seq<RefreshLane>,
    cursor: int,
    place: int,
)
    requires
        0 <= place < pending.len(),
        cursor >= 0,
        cursor % (pending.len() as int) == place,
    ensures
        rotated(pending, cursor % (pending.len() as int))[0] == pending[place],
        rotated(pending, cursor % (pending.len() as int)).len() == pending.len(),
        rotated(pending, cursor % (pending.len() as int)).to_multiset() == pending.to_multiset(),
{
    let by = cursor % (pending.len() as int);
    assert(pending =~= pending.take(by) + pending.skip(by));
    vstd::seq_lib::lemma_multiset_commutative(pending.take(by), pending.skip(by));
    vstd::seq_lib::lemma_multiset_commutative(pending.skip(by), pending.take(by));
}

} // verus!

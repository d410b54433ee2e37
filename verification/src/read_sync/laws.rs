//! What the reads of accounts and the refreshes of lanes are for: which may begin, what their end
//! leaves, and who comes next.

use vstd::prelude::*;

use crate::clock;
use crate::clock::{Moment, ServerDelay};
use crate::domain::AccountView;
use crate::read_sync;
use crate::read_sync::{
    AccountState, CompletionDisposition, FloorReason, GeneralReadCache, GeneralReadDirective,
    ReadDeferralView, ReadTokenView, ReadsView, RefreshContextView, RefreshLane, RefreshState,
    RefreshTokenView, ServerFloor,
};
use crate::text;

verus! {

/// Of two ends of a delay the later one counts, with its reason; a delay without an end suspends.
pub proof fn law_the_later_floor_counts(
    floor: ServerFloor,
    delay: ServerDelay,
    reason: FloorReason,
    now: Moment,
    wall: Option<u64>,
)
    ensures
        ({
            let after = read_sync::raised(floor, delay, reason, now, wall);
            match clock::deadline_of(delay, now, wall) {
                None => after.suspended && after.reason == Some(reason) && after.not_before
                    == floor.not_before,
                Some(end) => {
                    &&& after.suspended == floor.suspended
                    &&& floor.not_before is None ==> after.not_before == Some(end) && after.reason
                        == Some(reason)
                    &&& floor.not_before matches Some(held) ==> {
                        &&& held.before(end) ==> after.not_before == Some(end) && after.reason
                            == Some(reason)
                        &&& !held.before(end) ==> after == floor
                    }
                },
            }
        }),
{
}

/// Both delays of a reply count, each for its own reason; a reply without any changes nothing.
pub proof fn law_both_delays_count(
    floor: ServerFloor,
    limit: ServerDelay,
    interval: ServerDelay,
    now: Moment,
    wall: Option<u64>,
)
    ensures
        ({
            let none: Option<ServerDelay> = None;
            &&& read_sync::directed(
                floor,
                GeneralReadDirective { rate_limit: none, x_poll_interval: none },
                now,
                wall,
            ) == floor
            &&& read_sync::directed(
                floor,
                GeneralReadDirective { rate_limit: Some(limit), x_poll_interval: none },
                now,
                wall,
            ) == read_sync::raised(floor, limit, FloorReason::RateLimit, now, wall)
            &&& read_sync::directed(
                floor,
                GeneralReadDirective { rate_limit: none, x_poll_interval: Some(interval) },
                now,
                wall,
            ) == read_sync::raised(floor, interval, FloorReason::PollInterval, now, wall)
            &&& read_sync::directed(
                floor,
                GeneralReadDirective { rate_limit: Some(limit), x_poll_interval: Some(interval) },
                now,
                wall,
            ) == read_sync::raised(
                read_sync::raised(floor, limit, FloorReason::RateLimit, now, wall),
                interval,
                FloorReason::PollInterval,
                now,
                wall,
            )
        }),
{
}

/// A read may begin exactly if the server holds nothing back and none of the account is running;
/// what the server said comes before what is running.
pub proof fn law_a_read_begins_when_nothing_holds_it_back(
    r: ReadsView,
    account: AccountView,
    now: Moment,
)
    ensures
        ({
            let key = read_sync::account_key_of(account);
            let state = if r.accounts.contains_key(key) {
                r.accounts[key]
            } else {
                AccountState {
                    generation: 0,
                    active_generation: None,
                    cache: GeneralReadCache { number: 0 },
                    floor: ServerFloor { not_before: None, suspended: false, reason: None },
                }
            };
            let deferral = read_sync::deferral_of(state, now);
            let notice = read_sync::floor_notice(state.floor, now);
            let after = read_sync::begun(r, account, now);
            &&& read_sync::account_of(r, key) == state
            &&& deferral is None <==> notice is None && state.active_generation is None
            &&& notice matches Some(said) ==> deferral == Some(ReadDeferralView::Server(said))
            &&& notice is None && state.active_generation is Some ==> deferral == Some(
                ReadDeferralView::Busy,
            )
            &&& after.accounts.contains_key(key)
            &&& deferral is Some ==> after.accounts[key] == state
            &&& deferral is None ==> {
                &&& after.accounts[key].active_generation == Some(after.accounts[key].generation)
                &&& state.generation < u64::MAX ==> after.accounts[key].generation
                    == state.generation + 1
                &&& after.accounts[key].cache == state.cache
                &&& after.accounts[key].floor == state.floor
                &&& read_sync::begun_token(r, account) == (ReadTokenView {
                    lifetime: r.lifetime,
                    account_key: key,
                    generation: after.accounts[key].generation,
                })
                &&& read_sync::releases(after, read_sync::begun_token(r, account))
            }
            &&& after.refreshes == r.refreshes
            &&& after.lifetime == r.lifetime
            &&& after.followup_cursor == r.followup_cursor
        }),
{
}

/// The server holds reads back while it has suspended them, or until the end of a delay with a
/// known reason.
pub proof fn law_the_server_holds_back_until_the_end(floor: ServerFloor, now: Moment)
    ensures
        ({
            let notice = read_sync::floor_notice(floor, now);
            let waiting = floor.not_before matches Some(end) && now.before(end);
            &&& notice is Some <==> floor.suspended || (waiting && floor.reason is Some)
            &&& floor.suspended ==> notice == Some(read_sync::RATE_SUSPENDED_NOTICE@)
            &&& !floor.suspended && waiting && floor.reason == Some(FloorReason::RateLimit)
                ==> notice == Some(read_sync::RATE_DEFERRED_NOTICE@)
            &&& !floor.suspended && waiting && floor.reason == Some(FloorReason::PollInterval)
                ==> notice == Some(read_sync::POLL_DEFERRED_NOTICE@)
        }),
{
}

/// The end of the running read frees its account; its cache is kept if the result is accepted and
/// has one, and its delays count. The end of any other read of the account only has its delays
/// counted, and one of another run or an unknown account counts for nothing.
pub proof fn law_the_end_of_a_read(
    r: ReadsView,
    token: ReadTokenView,
    directive: GeneralReadDirective,
    cache: Option<GeneralReadCache>,
    accept: bool,
    now: Moment,
    wall: Option<u64>,
)
    ensures
        ({
            let after = read_sync::completed(r, token, directive, cache, accept, now, wall);
            let key = token.account_key;
            let known = token.lifetime == r.lifetime && r.accounts.contains_key(key);
            let was = r.accounts[key];
            let is = after.accounts[key];
            let running = was.active_generation == Some(token.generation);
            &&& !known ==> after == r
            &&& known ==> {
                &&& after.accounts.dom() == r.accounts.dom()
                &&& is.floor == read_sync::directed(was.floor, directive, now, wall)
                &&& is.generation == was.generation
                &&& running ==> is.active_generation is None
                &&& running && accept && cache is Some ==> is.cache == cache->0
                &&& (!running || !accept || cache is None) ==> is.cache == was.cache
                &&& !running ==> is.active_generation == was.active_generation
            }
            &&& read_sync::disposition_of(r, token, accept) == (CompletionDisposition {
                matching_operation_released: known && running,
                payload_accepted: known && running && accept,
            })
        }),
{
    let after = read_sync::completed(r, token, directive, cache, accept, now, wall);
    if token.lifetime == r.lifetime && r.accounts.contains_key(token.account_key) {
        assert(after.accounts.dom() =~= r.accounts.dom());
    }
}

/// A delay that is noted for an account counts for it and for no other.
pub proof fn law_noted_delays_count_for_their_account(
    r: ReadsView,
    account: AccountView,
    directive: GeneralReadDirective,
    now: Moment,
    wall: Option<u64>,
    other: Seq<char>,
)
    ensures
        ({
            let key = read_sync::account_key_of(account);
            let was = read_sync::account_of(r, key);
            let after = read_sync::directive_applied(r, account, directive, now, wall);
            &&& after.accounts.contains_key(key)
            &&& after.accounts[key] == AccountState {
                floor: read_sync::directed(was.floor, directive, now, wall),
                ..was
            }
            &&& other != key ==> after.accounts.contains_key(other) == r.accounts.contains_key(
                other,
            ) && after.accounts[other] == r.accounts[other]
            &&& after.refreshes == r.refreshes
        }),
{
}

/// A refresh that is running is asked for again only if asked for explicitly. Another begins if
/// its read may, and is deferred if not; that it was asked for explicitly is not forgotten.
pub proof fn law_refreshes_begin_or_wait(
    r: ReadsView,
    lane: RefreshLane,
    account: AccountView,
    explicit: bool,
    now: Moment,
)
    ensures
        ({
            let after = read_sync::refresh_requested(r, lane, account, explicit, now);
            let had = r.refreshes.contains_key(lane.id);
            let may = read_sync::deferral_of(
                read_sync::account_of(r, read_sync::account_key_of(account)),
                now,
            ) is None;
            &&& after.refreshes.contains_key(lane.id)
            &&& had && r.refreshes[lane.id] is Active ==> {
                &&& after.refreshes[lane.id] == (RefreshState::Active {
                    explicit_pending: explicit || r.refreshes[lane.id]->explicit_pending,
                })
                &&& after.accounts == r.accounts
            }
            &&& !(had && r.refreshes[lane.id] is Active) ==> {
                &&& may ==> after.refreshes[lane.id] == (RefreshState::Active {
                    explicit_pending: false,
                })
                &&& !may ==> after.refreshes[lane.id] == (RefreshState::Deferred {
                    explicit: explicit || (had && r.refreshes[lane.id] is Deferred
                        && r.refreshes[lane.id]->explicit),
                })
                &&& after.accounts == read_sync::begun(r, account, now).accounts
            }
            &&& forall|id: u64|
                id != lane.id ==> #[trigger] after.refreshes.contains_key(id)
                    == r.refreshes.contains_key(id) && after.refreshes[id] == r.refreshes[id]
        }),
{
}

/// The result of a refresh is wanted exactly if it is about what is shown, its lane is running,
/// and it was not asked for again meanwhile.
pub proof fn law_results_are_wanted_for_what_is_shown(
    r: ReadsView,
    token: RefreshTokenView,
    current: Option<RefreshContextView>,
)
    ensures
        read_sync::is_wanted(r, token, current) <==> {
            &&& current == Some(token.context)
            &&& r.refreshes.contains_key(token.lane.id)
            &&& r.refreshes[token.lane.id] is Active
            &&& !r.refreshes[token.lane.id]->explicit_pending
        },
{
}

/// When a refresh is over its lane is free, unless it was asked for again meanwhile: then that is
/// deferred. The other lanes stay.
pub proof fn law_a_refresh_that_is_over_frees_its_lane(
    refreshes: Map<u64, RefreshState>,
    lane: RefreshLane,
    other: u64,
)
    ensures
        ({
            let after = read_sync::lane_released(refreshes, lane);
            let again = refreshes.contains_key(lane.id) && refreshes[lane.id] is Active
                && refreshes[lane.id]->explicit_pending;
            &&& again ==> after.contains_key(lane.id) && after[lane.id]
                == (RefreshState::Deferred { explicit: true })
            &&& !again ==> !after.contains_key(lane.id)
            &&& other != lane.id ==> after.contains_key(other) == refreshes.contains_key(other)
                && (refreshes.contains_key(other) ==> after[other] == refreshes[other])
        }),
{
}

/// The end of a refresh is the end of its read, accepted if it is wanted and succeeded; its lane
/// is freed only if that read was the running one.
pub proof fn law_the_end_of_a_refresh(
    r: ReadsView,
    token: RefreshTokenView,
    current: Option<RefreshContextView>,
    succeeded: bool,
    cache: Option<GeneralReadCache>,
    directive: GeneralReadDirective,
    now: Moment,
    wall: Option<u64>,
)
    ensures
        ({
            let after = read_sync::refresh_completed(
                r,
                token,
                current,
                succeeded,
                cache,
                directive,
                now,
                wall,
            );
            let t = token.read;
            let running = t.lifetime == r.lifetime && r.accounts.contains_key(t.account_key)
                && r.accounts[t.account_key].active_generation == Some(t.generation);
            &&& running && succeeded && read_sync::is_wanted(r, token, current) && cache is Some
                ==> after.accounts[t.account_key].cache == cache->0
            &&& running && (!succeeded || !read_sync::is_wanted(r, token, current))
                ==> after.accounts[t.account_key].cache == r.accounts[t.account_key].cache
            &&& running ==> after.accounts[t.account_key].active_generation is None
            &&& running ==> after.refreshes == read_sync::lane_released(r.refreshes, token.lane)
            &&& !running ==> after.refreshes == r.refreshes
        }),
{
}

/// The lanes that wait are those live ones whose refresh is deferred, in their order.
pub proof fn law_waiting_lanes_are_found(
    live: Seq<RefreshLane>,
    refreshes: Map<u64, RefreshState>,
    lane: RefreshLane,
)
    ensures
        read_sync::deferred_among(live, refreshes).contains(lane) <==> live.contains(lane)
            && refreshes.contains_key(lane.id) && refreshes[lane.id] is Deferred,
        read_sync::deferred_among(live, refreshes).len() <= live.len(),
    decreases live.len(),
{
    if live.len() > 0 {
        let front = live.drop_last();
        let before = read_sync::deferred_among(front, refreshes);
        let all = read_sync::deferred_among(live, refreshes);
        law_waiting_lanes_are_found(front, refreshes, lane);
        if all.contains(lane) {
            let i = all.index_of(lane);
            if i < before.len() {
                assert(before[i] == lane);
                let k = front.index_of(lane);
                assert(live[k] == lane);
            } else {
                assert(live[live.len() - 1] == lane);
            }
        }
        if live.contains(lane) && read_sync::is_deferred(refreshes, lane) {
            let k = live.index_of(lane);
            if k < front.len() {
                assert(front[k] == lane);
                let i = before.index_of(lane);
                assert(all[i] == lane);
            } else {
                assert(all[before.len() as int] == lane);
            }
        }
    }
}

/// Turning a list by some places starts with what stands there and ends with what stood before.
pub proof fn law_turning_starts_further_on(s: Seq<RefreshLane>, by: int)
    requires
        0 <= by < s.len(),
    ensures
        read_sync::rotated(s, by).len() == s.len(),
        forall|i: int|
            0 <= i < s.len() ==> #[trigger] read_sync::rotated(s, by)[i] == s[if i + by < s.len() {
                i + by
            } else {
                i + by - s.len()
            }],
{
}

/// What is kept of the refreshes is what live lanes have.
pub proof fn law_live_lanes_keep_their_refreshes(
    refreshes: Map<u64, RefreshState>,
    live: Seq<RefreshLane>,
    id: u64,
)
    ensures
        ({
            let after = read_sync::retained(refreshes, live);
            &&& after.contains_key(id) <==> refreshes.contains_key(id) && exists|i: int|
                0 <= i < live.len() && (#[trigger] live[i]).id == id
            &&& after.contains_key(id) ==> after[id] == refreshes[id]
        }),
{
}

/// The key of an account does not look at case.
pub proof fn law_keys_ignore_case(a: AccountView, b: AccountView)
    requires
        text::lower(a.host) == text::lower(b.host),
        text::lower(a.login) == text::lower(b.login),
    ensures
        read_sync::account_key_of(a) == read_sync::account_key_of(b),
{
}

/// Accounts of one host with different logins have different keys.
pub proof fn law_keys_tell_logins_apart(a: AccountView, b: AccountView)
    requires
        a.host == b.host,
        text::lower(a.login) != text::lower(b.login),
    ensures
        read_sync::account_key_of(a) != read_sync::account_key_of(b),
{
    let head = "github\u{1f}"@ + text::lower(a.host) + "\u{1f}"@;
    let x = read_sync::account_key_of(a);
    let y = read_sync::account_key_of(b);
    assert(x.skip(head.len() as int) =~= text::lower(a.login));
    assert(y.skip(head.len() as int) =~= text::lower(b.login));
}

/// Numbers count on by one and stay at the last one.
pub proof fn law_numbers_count_on(n: u64)
    ensures
        n < u64::MAX ==> read_sync::one_more(n) == n + 1,
        read_sync::one_more(u64::MAX) == u64::MAX,
{
}

} // verus!

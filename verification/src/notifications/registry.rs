//! The private registry of alert consent, delivered tags and alert routes.

use vstd::prelude::*;
use vstd::string::*;

use crate::domain::{Account, AccountView};
use crate::encoding;
use crate::faults;
use crate::notifications::model;
use crate::notifications::model::{
    NotificationPullRequest, NotificationPullRequestView, NotificationRoute, NotificationRouteView,
    ProviderNotificationEvent, ProviderNotificationEventView, QueuedNotification,
    QueuedNotificationView,
};
use crate::seqs;
use crate::text;
use crate::text_map::TextMap;

verus! {

pub const MAX_RETAINED_TAGS: usize = 2048;

pub const MAX_RETAINED_ROUTES: usize = 512;

pub const MAX_CAS_ATTEMPTS: usize = 4;

pub const REGISTRY_SCHEMA_VERSION: u32 = 1;

pub const MAX_ACCOUNTS: usize = 128;

pub const MAX_IDENTITY_BYTES: usize = 512;

/// A route as the registry keeps it.
#[derive(Debug, PartialEq, Eq)]
pub struct PersistedRoute {
    pub tag: String,
    pub account: Account,
    pub target: NotificationPullRequest,
}

#[verifier::ext_equal]
pub struct PersistedRouteView {
    pub tag: Seq<char>,
    pub account: AccountView,
    pub target: NotificationPullRequestView,
}

impl View for PersistedRoute {
    type V = PersistedRouteView;

    open spec fn view(&self) -> PersistedRouteView {
        PersistedRouteView {
            tag: self.tag@,
            account: self.account@,
            target: self.target@,
        }
    }
}

impl Clone for PersistedRoute {
    fn clone(&self) -> (r: Self)
        ensures
            r == *self,
    {
        PersistedRoute {
            tag: self.tag.clone(),
            account: self.account.clone(),
            target: self.target.clone(),
        }
    }
}

/// The registry as it is stored.
pub struct RegistryFile {
    pub schema_version: u32,
    pub revision: u64,
    pub enabled: TextMap<bool>,
    pub delivered_tags: Vec<String>,
    pub routes: Vec<PersistedRoute>,
}

impl RegistryFile {
    /// A registry in which nothing was enabled or delivered yet.
    pub fn empty() -> (r: Self)
        ensures
            r.schema_version == REGISTRY_SCHEMA_VERSION,
            r.revision == 0,
            r.enabled@ == Map::<Seq<char>, bool>::empty(),
            r.delivered_tags@ == Seq::<String>::empty(),
            r.routes@ == Seq::<PersistedRoute>::empty(),
    {
        RegistryFile {
            schema_version: REGISTRY_SCHEMA_VERSION,
            revision: 0,
            enabled: TextMap::new(),
            delivered_tags: Vec::new(),
            routes: Vec::new(),
        }
    }
}

// ---------------------------------------------------------------------------
// Validation

pub open spec fn identity_fault(value: Seq<char>, name: Seq<char>) -> Option<Seq<char>> {
    if value.len() == 0 {
        Some("Notification "@ + name + " must not be empty"@)
    } else if text::byte_len(value) > MAX_IDENTITY_BYTES {
        Some("Notification "@ + name + " exceeds byte bound"@)
    } else if text::has_control(value) {
        Some("Notification "@ + name + " contains control characters"@)
    } else {
        None
    }
}

fn notification_fault(name: &str, what: &str) -> (r: String)
    ensures
        r@ == "Notification "@ + name@ + what@,
{
    let mut out: String = "Notification ".to_owned();
    out.append(name);
    out.append(what);
    out
}

pub fn validate_identity_part(value: &str, name: &str) -> (r: Result<(), String>)
    ensures
        faults::fault_text(r) == identity_fault(value@, name@),
{
    if value.is_empty() {
        Err(notification_fault(name, " must not be empty"))
    } else if text::byte_length(value) > MAX_IDENTITY_BYTES {
        Err(notification_fault(name, " exceeds byte bound"))
    } else if text::contains_control(value) {
        Err(notification_fault(name, " contains control characters"))
    } else {
        Ok(())
    }
}

pub open spec fn all_lower_hex(s: Seq<char>) -> bool {
    forall|i: int| 0 <= i < s.len() ==> encoding::is_lower_hex(#[trigger] s[i])
}

pub open spec fn tag_fault(tag: Seq<char>) -> Option<Seq<char>> {
    if !text::starts_with_text(tag, model::tag_namespace()) {
        Some("Notification tag has an unknown namespace"@)
    } else if text::byte_len(tag) != 22 + 64 {
        Some("Notification tag has an invalid length"@)
    } else if !all_lower_hex(tag.skip(model::tag_namespace().len() as int)) {
        Some("Notification tag digest is malformed"@)
    } else {
        None
    }
}

pub fn validate_tag(tag: &str) -> (r: Result<(), String>)
    ensures
        faults::fault_text(r) == tag_fault(tag@),
{
    if !text::starts_with(tag, "cibergit-notification-") {
        return Err("Notification tag has an unknown namespace".to_owned());
    }
    if text::byte_length(tag) != 22 + 64 {
        return Err("Notification tag has an invalid length".to_owned());
    }
    let chars = text::chars_of(tag);
    proof {
        reveal_strlit("cibergit-notification-");
    }
    let mut i: usize = 22;
    while i < chars.len()
        invariant
            chars@ == tag@,
            22 <= i <= chars@.len(),
            model::tag_namespace().len() == 22,
            text::starts_with_text(tag@, model::tag_namespace()),
            text::byte_len(tag@) == 22 + 64,
            forall|k: int| 22 <= k < i ==> encoding::is_lower_hex(#[trigger] tag@[k]),
        decreases chars.len() - i,
    {
        let c: char = chars[i];
        if !(('0' <= c && c <= '9') || ('a' <= c && c <= 'f')) {
            proof {
                assert(tag@.skip(22)[i - 22] == c);
                assert(!all_lower_hex(tag@.skip(22)));
            }
            return Err("Notification tag digest is malformed".to_owned());
        }
        i += 1;
    }
    proof {
        assert forall|k: int| 0 <= k < tag@.skip(22).len() implies encoding::is_lower_hex(
            #[trigger] tag@.skip(22)[k],
        ) by {
            assert(tag@.skip(22)[k] == tag@[k + 22]);
        }
    }
    Ok(())
}

/// The namespace and the hexadecimal text of a digest of 32 bytes make a valid tag.
pub proof fn law_digest_tags_are_valid(digest: Seq<u8>)
    requires
        digest.len() == 32,
    ensures
        tag_fault(model::tag_namespace() + encoding::hex(digest)) is None,
{
    let tag = model::tag_namespace() + encoding::hex(digest);
    reveal_strlit("cibergit-notification-");
    encoding::law_hex_is_lower_hex(digest);
    assert(tag.take(22) =~= model::tag_namespace());
    assert(tag.skip(22) =~= encoding::hex(digest));
    assert(vstd::utf8::is_ascii_chars(tag)) by {
        assert forall|i: int| 0 <= i < tag.len() implies (0 <= #[trigger] (tag[i] as nat) < 128) by {
            if i >= 22 {
                assert(tag[i] == encoding::hex(digest)[i - 22]);
            }
        }
    }
    vstd::utf8::is_ascii_chars_encode_utf8(tag);
}

/// A tag is valid exactly if it is the namespace and 64 small hexadecimal digits.
pub proof fn law_valid_tags(tag: Seq<char>)
    ensures
        tag_fault(tag) is None <==> {
            &&& tag.len() == 86
            &&& tag.take(22) == "cibergit-notification-"@
            &&& forall|i: int|
                22 <= i < 86 ==> '0' <= #[trigger] tag[i] <= '9' || 'a' <= tag[i] <= 'f'
        },
{
    reveal_strlit("cibergit-notification-");
    let name = "cibergit-notification-"@;
    let rest = tag.skip(22);
    if text::starts_with_text(tag, model::tag_namespace()) {
        if all_lower_hex(rest) {
            assert forall|i: int| 22 <= i < tag.len() implies '0' <= #[trigger] tag[i] <= '9' || 'a'
                <= tag[i] <= 'f' by {
                assert(encoding::is_lower_hex(rest[i - 22]));
            }
        }
        if forall|i: int|
            22 <= i < tag.len() ==> '0' <= #[trigger] tag[i] <= '9' || 'a' <= tag[i] <= 'f' {
            assert forall|i: int| 0 <= i < rest.len() implies encoding::is_lower_hex(
                #[trigger] rest[i],
            ) by {
                assert(rest[i] == tag[i + 22]);
            }
            assert(vstd::utf8::is_ascii_chars(tag)) by {
                assert(vstd::utf8::is_ascii_chars(name));
                assert forall|i: int| 0 <= i < tag.len() implies 0 <= #[trigger] tag[i] < 128 by {
                    if i < 22 {
                        assert(tag.take(22)[i] == name[i]);
                    }
                }
            }
            vstd::utf8::is_ascii_chars_encode_utf8(tag);
        }
    }
}

pub open spec fn preference_fault(key: Seq<char>) -> Option<Seq<char>> {
    if text::byte_len(key) > MAX_IDENTITY_BYTES * 2 {
        Some("Notification preference identity exceeds byte bound"@)
    } else {
        match encoding::pair_in_json(key) {
            None => Some("Notification preference identity is malformed"@),
            Some(pair) => pair_fault(pair.0, pair.1),
        }
    }
}

/// What is wrong with the host and the login of a preference.
pub open spec fn pair_fault(host: Seq<char>, login: Seq<char>) -> Option<Seq<char>> {
    match identity_fault(host, "account host"@) {
        Some(e) => Some(e),
        None => identity_fault(login, "account login"@),
    }
}

/// Judges the host and the login that a preference key was read as.
pub fn validate_preference_pair(host: &str, login: &str) -> (r: Result<(), String>)
    ensures
        faults::fault_text(r) == pair_fault(host@, login@),
{
    match validate_identity_part(host, "account host") {
        Err(e) => Err(e),
        Ok(_) => validate_identity_part(login, "account login"),
    }
}

pub fn validate_preference_key(key: &str) -> (r: Result<(), String>)
    ensures
        faults::fault_text(r) == preference_fault(key@),
{
    if text::byte_length(key) > MAX_IDENTITY_BYTES * 2 {
        return Err("Notification preference identity exceeds byte bound".to_owned());
    }
    match encoding::parse_pair(key) {
        None => Err("Notification preference identity is malformed".to_owned()),
        Some((host, login)) => validate_preference_pair(&host, &login),
    }
}

/// What each check of a route finds, in the order of the checks.
pub open spec fn route_findings(route: PersistedRouteView, tags: Seq<Seq<char>>) -> Seq<
    Option<Seq<char>>,
> {
        seq![
            tag_fault(route.tag),
            if tags.contains(route.tag) {
                None
            } else {
                Some("Notification route lacks retained dedupe tag"@)
            },
            identity_fault(route.account.host, "route account host"@),
            identity_fault(route.account.login, "route account login"@),
            if route.target.provider == "github"@ {
                None
            } else {
                Some("Notification route provider is unsupported"@)
            },
            identity_fault(route.target.host, "route host"@),
            identity_fault(route.target.account, "route account"@),
            identity_fault(route.target.owner, "route owner"@),
            identity_fault(route.target.repository, "route repository"@),
            if route.target.pull_request > 0 {
                None
            } else {
                Some("Notification route pull request must be positive"@)
            },
            if text::same_ignoring_case(route.account.host, route.target.host)
                && text::same_ignoring_case(route.account.login, route.target.account) {
                None
            } else {
                Some("Notification route account binding is inconsistent"@)
            },
        ]
}

pub open spec fn route_fault(route: PersistedRouteView, tags: Seq<Seq<char>>) -> Option<Seq<char>> {
    faults::first_fault(route_findings(route, tags))
}

pub fn validate_route(route: &PersistedRoute, tags: &Vec<String>) -> (r: Result<(), String>)
    ensures
        faults::fault_text(r) == route_fault(route@, text::texts(tags@)),
{
    let findings: Vec<Result<(), String>> = vec![
        validate_tag(&route.tag),
        faults::check(text::is_among(tags, &route.tag), "Notification route lacks retained dedupe tag"),
        validate_identity_part(&route.account.host, "route account host"),
        validate_identity_part(&route.account.login, "route account login"),
        faults::check(
            text::same_text(&route.target.provider, "github"),
            "Notification route provider is unsupported",
        ),
        validate_identity_part(&route.target.host, "route host"),
        validate_identity_part(&route.target.account, "route account"),
        validate_identity_part(&route.target.owner, "route owner"),
        validate_identity_part(&route.target.repository, "route repository"),
        faults::check(
            route.target.pull_request > 0,
            "Notification route pull request must be positive",
        ),
        faults::check(
            text::equals_ignoring_case(&route.account.host, &route.target.host)
                && text::equals_ignoring_case(&route.account.login, &route.target.account),
            "Notification route account binding is inconsistent",
        ),
    ];
    proof {
        assert(findings@.map_values(|f: Result<(), String>| faults::fault_text(f)) =~= route_findings(
            route@,
            text::texts(tags@),
        ));
    }
    faults::first_of(findings)
}

pub open spec fn route_tags(routes: Seq<PersistedRoute>) -> Seq<Seq<char>> {
    routes.map_values(|route: PersistedRoute| route.tag@)
}

/// What is wrong with a registry, the first fault of it.
pub open spec fn registry_fault(file: RegistryFile) -> Option<Seq<char>> {
    let tags = text::texts(file.delivered_tags@);
    let keys = file.enabled.key_seq();
    let preferences = faults::first_fault(Seq::new(keys.len(), |i: int| preference_fault(keys[i])));
    let tag_faults = faults::first_fault(Seq::new(tags.len(), |i: int| tag_fault(tags[i])));
    let routes = faults::first_fault(
        Seq::new(file.routes@.len(), |i: int| route_fault(file.routes@[i]@, tags)),
    );
    if file.schema_version != REGISTRY_SCHEMA_VERSION {
        Some(
            "Unsupported notification registry schema version "@ + text::decimal(
                file.schema_version as nat,
            ),
        )
    } else if keys.len() > MAX_ACCOUNTS {
        Some("Notification preference account bound exceeded"@)
    } else if preferences is Some {
        preferences
    } else if tags.len() > MAX_RETAINED_TAGS {
        Some("Notification tag bound exceeded"@)
    } else if !tags.no_duplicates() {
        Some("Notification tags must be unique"@)
    } else if tag_faults is Some {
        tag_faults
    } else if file.routes@.len() > MAX_RETAINED_ROUTES {
        Some("Notification route bound exceeded"@)
    } else if !route_tags(file.routes@).no_duplicates() {
        Some("Notification routes must have unique tags"@)
    } else {
        routes
    }
}

fn all_different(v: &Vec<String>) -> (r: bool)
    ensures
        r == text::texts(v@).no_duplicates(),
{
    let ghost all = text::texts(v@);
    let mut i: usize = 0;
    while i < v.len()
        invariant
            i <= v@.len(),
            all == text::texts(v@),
            forall|a: int, b: int| 0 <= a < b < i ==> all[a] != all[b],
        decreases v.len() - i,
    {
        let mut j: usize = 0;
        while j < i
            invariant
                j <= i < v@.len(),
                all == text::texts(v@),
                forall|a: int| 0 <= a < j ==> all[a] != all[i as int],
            decreases i - j,
        {
            if v[j] == v[i] {
                assert(all[j as int] == all[i as int]);
                return false;
            }
            j += 1;
        }
        i += 1;
    }
    true
}

pub fn validate_registry_file(file: &RegistryFile) -> (r: Result<(), String>)
    ensures
        faults::fault_text(r) == registry_fault(*file),
{
    if file.schema_version != REGISTRY_SCHEMA_VERSION {
        let mut out: String = "Unsupported notification registry schema version ".to_owned();
        out.append(&text::decimal_text(file.schema_version as u64));
        return Err(out);
    }
    let keys = file.enabled.keys();
    proof {
        assert(file.enabled.key_seq().len() == keys@.len());
    }
    if keys.len() > MAX_ACCOUNTS {
        return Err("Notification preference account bound exceeded".to_owned());
    }
    let ghost key_seq = file.enabled.key_seq();
    let ghost findings = Seq::new(key_seq.len(), |i: int| preference_fault(key_seq[i]));
    let mut i: usize = 0;
    while i < keys.len()
        invariant
            i <= keys@.len(),
            key_seq == text::texts(keys@),
            findings == Seq::new(key_seq.len(), |i: int| preference_fault(key_seq[i])),
            faults::first_fault(findings) is Some ==> registry_fault(*file) == faults::first_fault(findings),
            forall|k: int| 0 <= k < i ==> (#[trigger] findings[k]) is None,
        decreases keys.len() - i,
    {
        let found = validate_preference_key(&keys[i]);
        proof {
            assert(key_seq[i as int] == keys@[i as int]@);
            faults::lemma_first_fault_at(findings, i as int);
        }
        if let Err(e) = found {
            return Err(e);
        }
        i += 1;
    }
    proof {
        faults::lemma_first_fault_at(findings, i as int);
    }
    if file.delivered_tags.len() > MAX_RETAINED_TAGS {
        return Err("Notification tag bound exceeded".to_owned());
    }
    if !all_different(&file.delivered_tags) {
        return Err("Notification tags must be unique".to_owned());
    }
    let ghost tags = text::texts(file.delivered_tags@);
    let ghost tag_findings = Seq::new(tags.len(), |i: int| tag_fault(tags[i]));
    let mut t: usize = 0;
    while t < file.delivered_tags.len()
        invariant
            t <= file.delivered_tags@.len(),
            tags == text::texts(file.delivered_tags@),
            tag_findings == Seq::new(tags.len(), |i: int| tag_fault(tags[i])),
            faults::first_fault(tag_findings) is Some ==> registry_fault(*file) == faults::first_fault(
                tag_findings,
            ),
            forall|k: int| 0 <= k < t ==> (#[trigger] tag_findings[k]) is None,
        decreases file.delivered_tags.len() - t,
    {
        let found = validate_tag(&file.delivered_tags[t]);
        proof {
            assert(tags[t as int] == file.delivered_tags@[t as int]@);
            faults::lemma_first_fault_at(tag_findings, t as int);
        }
        if let Err(e) = found {
            return Err(e);
        }
        t += 1;
    }
    proof {
        faults::lemma_first_fault_at(tag_findings, t as int);
    }
    if file.routes.len() > MAX_RETAINED_ROUTES {
        return Err("Notification route bound exceeded".to_owned());
    }
    let mut names: Vec<String> = Vec::new();
    let mut n: usize = 0;
    while n < file.routes.len()
        invariant
            n <= file.routes@.len(),
            names@.len() == n,
            forall|k: int| 0 <= k < n ==> (#[trigger] names@[k])@ == file.routes@[k].tag@,
        decreases file.routes.len() - n,
    {
        names.push(file.routes[n].tag.clone());
        n += 1;
    }
    proof {
        assert(text::texts(names@) =~= route_tags(file.routes@));
    }
    if !all_different(&names) {
        return Err("Notification routes must have unique tags".to_owned());
    }
    let ghost route_findings = Seq::new(
        file.routes@.len(),
        |i: int| route_fault(file.routes@[i]@, tags),
    );
    let mut m: usize = 0;
    while m < file.routes.len()
        invariant
            m <= file.routes@.len(),
            tags == text::texts(file.delivered_tags@),
            route_findings == Seq::new(
                file.routes@.len(),
                |i: int| route_fault(file.routes@[i]@, tags),
            ),
            registry_fault(*file) == faults::first_fault(route_findings),
            forall|k: int| 0 <= k < m ==> (#[trigger] route_findings[k]) is None,
        decreases file.routes.len() - m,
    {
        let found = validate_route(&file.routes[m], &file.delivered_tags);
        proof {
            faults::lemma_first_fault_at(route_findings, m as int);
        }
        if let Err(e) = found {
            return Err(e);
        }
        m += 1;
    }
    proof {
        faults::lemma_first_fault_at(route_findings, m as int);
    }
    Ok(())
}

// ---------------------------------------------------------------------------
// Reservation of alerts

pub open spec fn route_views(routes: Seq<PersistedRoute>) -> Seq<PersistedRouteView> {
    routes.map_values(|route: PersistedRoute| route@)
}

pub open spec fn event_views(events: Seq<ProviderNotificationEvent>) -> Seq<
    ProviderNotificationEventView,
> {
    events.map_values(|event: ProviderNotificationEvent| event@)
}

pub open spec fn queued_views(queued: Seq<QueuedNotification>) -> Seq<QueuedNotificationView> {
    queued.map_values(|q: QueuedNotification| q@)
}

pub open spec fn without_tag(routes: Seq<PersistedRouteView>, tag: Seq<char>) -> Seq<
    PersistedRouteView,
> {
    routes.filter(|route: PersistedRouteView| route.tag != tag)
}

/// The tags and routes that a registry keeps, and the alerts that it lets through.
#[verifier::ext_equal]
pub struct Reservation {
    pub tags: Seq<Seq<char>>,
    pub routes: Seq<PersistedRouteView>,
    pub queued: Seq<QueuedNotificationView>,
}

pub open spec fn route_to(account: AccountView, target: NotificationPullRequestView) -> NotificationRouteView {
    NotificationRouteView {
        account,
        owner: target.owner,
        repository: target.repository,
        pull_request: target.pull_request,
    }
}

/// An event whose tag is known changes nothing; another is tagged, routed and queued.
pub open spec fn reserve_event(
    before: Reservation,
    account: AccountView,
    lease: u64,
    event: ProviderNotificationEventView,
) -> Reservation {
    let tag = model::stable_event_tag_of(account, event.identity);
    if before.tags.contains(tag) {
        before
    } else {
        Reservation {
            tags: before.tags.push(tag),
            routes: without_tag(before.routes, tag).push(
                PersistedRouteView { tag, account, target: event.identity.target },
            ),
            queued: before.queued.push(
                QueuedNotificationView {
                    delivery_lease: Some(lease),
                    account_key: model::account_key_of(account),
                    consent_generation: 0,
                    selection: Seq::empty(),
                    selection_generation: 0,
                    notification: model::system_notification_of(account, event),
                    route: route_to(account, event.identity.target),
                },
            ),
        }
    }
}

pub open spec fn reserve_events(
    before: Reservation,
    account: AccountView,
    lease: u64,
    events: Seq<ProviderNotificationEventView>,
) -> Reservation
    decreases events.len(),
{
    if events.len() == 0 {
        before
    } else {
        reserve_event(
            reserve_events(before, account, lease, events.drop_last()),
            account,
            lease,
            events.last(),
        )
    }
}

pub open spec fn consents(enabled: Map<Seq<char>, bool>, account: AccountView) -> bool {
    enabled.contains_key(model::account_key_of(account)) && enabled[model::account_key_of(account)]
}

pub open spec fn of_account(event: ProviderNotificationEventView, account: AccountView) -> bool {
    text::same_ignoring_case(event.identity.target.account, account.login)
}

/// Why no alert can be reserved.
pub open spec fn reservation_fault(
    file: RegistryFile,
    account: AccountView,
    events: Seq<ProviderNotificationEventView>,
) -> Option<Seq<char>> {
    if !consents(file.enabled@, account) {
        Some("macOS consent is no longer enabled"@)
    } else if exists|i: int| 0 <= i < events.len() && !of_account(#[trigger] events[i], account) {
        Some("event account differs from notification consent account"@)
    } else if file.revision == u64::MAX {
        Some("Notification registry revision exhausted"@)
    } else {
        None
    }
}

fn remove_tag(routes: &Vec<PersistedRoute>, tag: &str) -> (r: Vec<PersistedRoute>)
    ensures
        route_views(r@) == without_tag(route_views(routes@), tag@),
{
    let ghost all = route_views(routes@);
    let ghost p = |route: PersistedRouteView| route.tag != tag@;
    let mut out: Vec<PersistedRoute> = Vec::new();
    let mut i: usize = 0;
    proof {
        seqs::lemma_filter_nothing(all, p);
        assert(route_views(out@) =~= all.take(0).filter(p));
    }
    while i < routes.len()
        invariant
            i <= routes@.len(),
            all == route_views(routes@),
            p == (|route: PersistedRouteView| route.tag != tag@),
            route_views(out@) == all.take(i as int).filter(p),
        decreases routes.len() - i,
    {
        proof {
            seqs::lemma_filter_step(all, i as int, p);
        }
        if !text::same_text(&routes[i].tag, tag) {
            proof {
                assert(route_views(out@.push(routes@[i as int])) =~= route_views(out@).push(
                    routes@[i as int]@,
                ));
            }
            out.push(routes[i].clone());
        }
        i += 1;
    }
    proof {
        assert(all.take(i as int) =~= all);
    }
    out
}

fn route_of_target(account: &Account, target: &NotificationPullRequest) -> (r: NotificationRoute)
    ensures
        r@ == route_to(account@, target@),
{
    NotificationRoute {
        account: account.clone(),
        owner: target.owner.clone(),
        repository: target.repository.clone(),
        pull_request: target.pull_request,
    }
}

/// Reserves the events that were not delivered before: the registry afterwards, and the
/// alerts that may be handed to the platform.
pub fn reserve_for_delivery(
    file: RegistryFile,
    lease: u64,
    account: &Account,
    events: &Vec<ProviderNotificationEvent>,
) -> (r: Result<(RegistryFile, Vec<QueuedNotification>), String>)
    ensures
        match r {
            Err(e) => reservation_fault(file, account@, event_views(events@)) == Some(e@),
            Ok((after, queued)) => {
                let all = reserve_events(
                    Reservation {
                        tags: text::texts(file.delivered_tags@),
                        routes: route_views(file.routes@),
                        queued: Seq::empty(),
                    },
                    account@,
                    lease,
                    event_views(events@),
                );
                &&& reservation_fault(file, account@, event_views(events@)) is None
                &&& after.schema_version == file.schema_version
                &&& after.revision == file.revision + 1
                &&& after.enabled == file.enabled
                &&& text::texts(after.delivered_tags@) == seqs::keep_last(
                    all.tags,
                    MAX_RETAINED_TAGS as nat,
                )
                &&& route_views(after.routes@) == seqs::keep_last(
                    all.routes,
                    MAX_RETAINED_ROUTES as nat,
                )
                &&& queued_views(queued@) == all.queued
            },
        },
{
    let key = model::account_key(account);
    let enabled: bool = match file.enabled.get(&key) {
        Some(b) => *b,
        None => false,
    };
    if !enabled {
        return Err("macOS consent is no longer enabled".to_owned());
    }
    let ghost views = event_views(events@);
    let ghost start = Reservation {
        tags: text::texts(file.delivered_tags@),
        routes: route_views(file.routes@),
        queued: Seq::empty(),
    };
    let mut tags: Vec<String> = text::clone_texts(&file.delivered_tags);
    let mut routes: Vec<PersistedRoute> = copy_routes(&file.routes);
    let mut queued: Vec<QueuedNotification> = Vec::new();
    let mut i: usize = 0;
    proof {
        assert(queued_views(queued@) =~= Seq::<QueuedNotificationView>::empty());
        assert(views.take(0) =~= Seq::<ProviderNotificationEventView>::empty());
    }
    while i < events.len()
        invariant
            i <= events@.len(),
            views == event_views(events@),
            consents(file.enabled@, account@),
            key@ == model::account_key_of(account@),
            forall|k: int| 0 <= k < i ==> of_account(#[trigger] views[k], account@),
            ({
                let all = reserve_events(start, account@, lease, views.take(i as int));
                &&& text::texts(tags@) == all.tags
                &&& route_views(routes@) == all.routes
                &&& queued_views(queued@) == all.queued
            }),
        decreases events.len() - i,
    {
        let event = &events[i];
        proof {
            assert(views[i as int] == event@);
            assert(views.take(i + 1).drop_last() =~= views.take(i as int));
            assert(views.take(i + 1).last() == event@);
        }
        if !text::equals_ignoring_case(&event.identity.target.account, &account.login) {
            assert(!of_account(views[i as int], account@));
            return Err("event account differs from notification consent account".to_owned());
        }
        let tag = model::stable_event_tag(account, event);
        if !text::is_among(&tags, &tag) {
            let ghost before = tags@;
            let ghost queued_before = queued@;
            routes = remove_tag(&routes, &tag);
            let ghost kept = routes@;
            routes.push(
                PersistedRoute {
                    tag: tag.clone(),
                    account: account.clone(),
                    target: event.identity.target.clone(),
                },
            );
            queued.push(
                QueuedNotification {
                    delivery_lease: Some(lease),
                    account_key: key.clone(),
                    consent_generation: 0,
                    selection: String::new(),
                    selection_generation: 0,
                    notification: model::system_notification(account, event),
                    route: route_of_target(account, &event.identity.target),
                },
            );
            tags.push(tag);
            proof {
                assert(text::texts(tags@) =~= text::texts(before).push(tag@));
                assert(route_views(routes@) =~= route_views(kept).push(routes@.last()@));
                assert(queued_views(queued@) =~= queued_views(queued_before).push(queued@.last()@));
            }
        }
        i += 1;
    }
    proof {
        assert(views.take(i as int) =~= views);
    }
    if file.revision == u64::MAX {
        return Err("Notification registry revision exhausted".to_owned());
    }
    let ghost all_tags = tags@;
    let ghost all_routes = routes@;
    let tags = seqs::last_items(tags, MAX_RETAINED_TAGS);
    let routes = seqs::last_items(routes, MAX_RETAINED_ROUTES);
    proof {
        assert(text::texts(tags@) =~= seqs::keep_last(
            text::texts(all_tags),
            MAX_RETAINED_TAGS as nat,
        ));
        assert(route_views(routes@) =~= seqs::keep_last(
            route_views(all_routes),
            MAX_RETAINED_ROUTES as nat,
        ));
    }
    let after = RegistryFile {
        schema_version: file.schema_version,
        revision: file.revision + 1,
        enabled: file.enabled,
        delivered_tags: tags,
        routes,
    };
    Ok((after, queued))
}

/// A copy of the routes.
fn copy_routes(routes: &Vec<PersistedRoute>) -> (r: Vec<PersistedRoute>)
    ensures
        r@ == routes@,
{
    let mut out: Vec<PersistedRoute> = Vec::new();
    let mut i: usize = 0;
    while i < routes.len()
        invariant
            i <= routes@.len(),
            out@ =~= routes@.take(i as int),
        decreases routes.len() - i,
    {
        out.push(routes[i].clone());
        i += 1;
    }
    proof {
        assert(routes@.take(i as int) =~= routes@);
    }
    out
}

proof fn lemma_reservation_knows_events(
    before: Reservation,
    account: AccountView,
    lease: u64,
    events: Seq<ProviderNotificationEventView>,
)
    ensures
        forall|t: Seq<char>| #[trigger] before.tags.contains(t) ==> reserve_events(
            before,
            account,
            lease,
            events,
        ).tags.contains(t),
        forall|i: int|
            0 <= i < events.len() ==> reserve_events(before, account, lease, events).tags.contains(
                model::stable_event_tag_of(account, (#[trigger] events[i]).identity),
            ),
    decreases events.len(),
{
    if events.len() > 0 {
        let prior = reserve_events(before, account, lease, events.drop_last());
        let after = reserve_events(before, account, lease, events);
        let tag = model::stable_event_tag_of(account, events.last().identity);
        lemma_reservation_knows_events(before, account, lease, events.drop_last());
        assert forall|t: Seq<char>| prior.tags.contains(t) implies after.tags.contains(t) by {
            let i = choose|i: int| 0 <= i < prior.tags.len() && prior.tags[i] == t;
            assert(after.tags[i] == t);
        }
        assert(after.tags.contains(tag)) by {
            if !prior.tags.contains(tag) {
                assert(after.tags[after.tags.len() - 1] == tag);
            }
        }
        assert forall|i: int| 0 <= i < events.len() implies after.tags.contains(
            model::stable_event_tag_of(account, (#[trigger] events[i]).identity),
        ) by {
            if i < events.len() - 1 {
                assert(events.drop_last()[i] == events[i]);
            }
        }
    }
}

proof fn lemma_known_events_change_nothing(
    before: Reservation,
    account: AccountView,
    lease: u64,
    events: Seq<ProviderNotificationEventView>,
)
    requires
        forall|i: int|
            0 <= i < events.len() ==> before.tags.contains(
                model::stable_event_tag_of(account, (#[trigger] events[i]).identity),
            ),
    ensures
        reserve_events(before, account, lease, events) == before,
    decreases events.len(),
{
    if events.len() > 0 {
        assert forall|i: int| 0 <= i < events.drop_last().len() implies before.tags.contains(
            model::stable_event_tag_of(account, (#[trigger] events.drop_last()[i]).identity),
        ) by {
            assert(events.drop_last()[i] == events[i]);
        }
        lemma_known_events_change_nothing(before, account, lease, events.drop_last());
        assert(events[events.len() - 1] == events.last());
    }
}

/// Events that were reserved once are never queued again while their tags are retained, with
/// whatever lease the second reservation runs.
pub proof fn law_reserved_events_are_not_delivered_twice(
    before: Reservation,
    account: AccountView,
    first_lease: u64,
    second_lease: u64,
    events: Seq<ProviderNotificationEventView>,
)
    ensures
        ({
            let once = reserve_events(before, account, first_lease, events);
            reserve_events(
                Reservation { tags: once.tags, routes: once.routes, queued: Seq::empty() },
                account,
                second_lease,
                events,
            ).queued.len() == 0
        }),
{
    let once = reserve_events(before, account, first_lease, events);
    lemma_reservation_knows_events(before, account, first_lease, events);
    lemma_known_events_change_nothing(
        Reservation { tags: once.tags, routes: once.routes, queued: Seq::empty() },
        account,
        second_lease,
        events,
    );
}

/// Reserving keeps the tags of a registry different from each other.
pub proof fn law_reservation_keeps_tags_unique(
    before: Reservation,
    account: AccountView,
    lease: u64,
    events: Seq<ProviderNotificationEventView>,
)
    requires
        before.tags.no_duplicates(),
    ensures
        reserve_events(before, account, lease, events).tags.no_duplicates(),
        seqs::keep_last(
            reserve_events(before, account, lease, events).tags,
            MAX_RETAINED_TAGS as nat,
        ).no_duplicates(),
    decreases events.len(),
{
    if events.len() > 0 {
        law_reservation_keeps_tags_unique(before, account, lease, events.drop_last());
    }
}

/// Turns the consent of one account on or off.
pub fn set_enabled(file: RegistryFile, account: &Account, enabled: bool) -> (r: Result<
    RegistryFile,
    String,
>)
    ensures
        match r {
            Err(e) => file.revision == u64::MAX && e@
                == "Notification registry revision exhausted"@,
            Ok(after) => {
                &&& file.revision < u64::MAX
                &&& after.schema_version == file.schema_version
                &&& after.revision == file.revision + 1
                &&& after.enabled@ == file.enabled@.insert(
                    model::account_key_of(account@),
                    enabled,
                )
                &&& after.delivered_tags == file.delivered_tags
                &&& after.routes == file.routes
            },
        },
{
    if file.revision == u64::MAX {
        return Err("Notification registry revision exhausted".to_owned());
    }
    let mut preferences = file.enabled;
    preferences.insert(model::account_key(account), enabled);
    Ok(
        RegistryFile {
            schema_version: file.schema_version,
            revision: file.revision + 1,
            enabled: preferences,
            delivered_tags: file.delivered_tags,
            routes: file.routes,
        },
    )
}

/// The routes of a registry, each under its tag, in their order.
pub fn routes(file: &RegistryFile) -> (r: Vec<(String, NotificationRoute)>)
    ensures
        r@.len() == file.routes@.len(),
        forall|i: int|
            #![trigger r@[i]]
            0 <= i < r@.len() ==> r@[i].0@ == file.routes@[i].tag@ && r@[i].1@ == route_to(
                file.routes@[i].account@,
                file.routes@[i].target@,
            ),
{
    let mut out: Vec<(String, NotificationRoute)> = Vec::new();
    let mut i: usize = 0;
    while i < file.routes.len()
        invariant
            i <= file.routes@.len(),
            out@.len() == i,
            forall|k: int|
                #![trigger out@[k]]
                0 <= k < i ==> out@[k].0@ == file.routes@[k].tag@ && out@[k].1@ == route_to(
                    file.routes@[k].account@,
                    file.routes@[k].target@,
                ),
        decreases file.routes.len() - i,
    {
        let route = &file.routes[i];
        out.push((route.tag.clone(), route_of_target(&route.account, &route.target)));
        i += 1;
    }
    out
}

/// Whether the registry alerts for an account; without a choice it does not.
pub fn is_enabled(file: &RegistryFile, account: &Account) -> (r: bool)
    ensures
        r == consents(file.enabled@, account@),
{
    match file.enabled.get(&model::account_key(account)) {
        Some(b) => *b,
        None => false,
    }
}

/// What follows an attempt to replace the stored registry.
pub enum CasStep {
    Done,
    Retry,
    Fail(String),
}

/// Whether a failed attempt met a registry that had changed in between.
pub open spec fn revision_changed(error: Seq<char>) -> bool {
    text::contains_text(error, "revision changed"@)
}

/// Decides after the attempt with the number `attempt`, the first being 0.
pub fn after_attempt(attempt: usize, result: Result<(), String>) -> (r: CasStep)
    requires
        attempt < MAX_CAS_ATTEMPTS,
    ensures
        match result {
            Ok(_) => r == CasStep::Done,
            Err(e) => if !revision_changed(e@) {
                r == CasStep::Fail(e)
            } else if attempt + 1 < MAX_CAS_ATTEMPTS {
                r == CasStep::Retry
            } else {
                r matches CasStep::Fail(text) && text@
                    == "Notification registry CAS retry bound exhausted"@
            },
        },
{
    match result {
        Ok(_) => CasStep::Done,
        Err(e) => {
            if !text::contains(&e, "revision changed") {
                CasStep::Fail(e)
            } else if attempt + 1 < MAX_CAS_ATTEMPTS {
                CasStep::Retry
            } else {
                CasStep::Fail("Notification registry CAS retry bound exhausted".to_owned())
            }
        },
    }
}

} // verus!

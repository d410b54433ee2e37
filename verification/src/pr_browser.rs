//! The index of the pull requests of one repository, read page by page. Replies are held
//! against a token: a change of the repository, of the state or a reload supersedes whatever
//! is on its way.

use vstd::prelude::*;
use vstd::string::*;

use crate::domain::{Account, AccountView};
use crate::text;

pub mod laws;

verus! {

/// Which pull requests are asked for. Closed ones include those that were merged.
#[derive(Clone, Copy, Debug, PartialEq, Eq, Structural)]
pub enum BrowseState {
    Open,
    Closed,
    All,
}

pub open spec fn query_of(state: BrowseState) -> Seq<char> {
    match state {
        BrowseState::Open => "open"@,
        BrowseState::Closed => "closed"@,
        BrowseState::All => "all"@,
    }
}

pub open spec fn label_of(state: BrowseState) -> Seq<char> {
    match state {
        BrowseState::Open => "Open"@,
        BrowseState::Closed => "Closed"@,
        BrowseState::All => "All"@,
    }
}

impl BrowseState {
    pub fn query(self) -> (r: &'static str)
        ensures
            r@ == query_of(self),
    {
        match self {
            BrowseState::Open => "open",
            BrowseState::Closed => "closed",
            BrowseState::All => "all",
        }
    }

    pub fn label(self) -> (r: &'static str)
        ensures
            r@ == label_of(self),
    {
        match self {
            BrowseState::Open => "Open",
            BrowseState::Closed => "Closed",
            BrowseState::All => "All",
        }
    }
}

impl Default for BrowseState {
    fn default() -> (r: Self)
        ensures
            r == BrowseState::Open,
    {
        BrowseState::Open
    }
}

/// How far what is shown is loaded.
#[derive(Debug, PartialEq, Eq)]
pub enum LoadState {
    Loading(String),
    Ready,
    Error(String),
    Cached(String),
}

#[verifier::ext_equal]
pub enum LoadStateView {
    Loading(Seq<char>),
    Ready,
    Error(Seq<char>),
    Cached(Seq<char>),
}

impl View for LoadState {
    type V = LoadStateView;

    open spec fn view(&self) -> LoadStateView {
        match self {
            LoadState::Loading(x0) => LoadStateView::Loading(x0@),
            LoadState::Ready => LoadStateView::Ready,
            LoadState::Error(x0) => LoadStateView::Error(x0@),
            LoadState::Cached(x0) => LoadStateView::Cached(x0@),
        }
    }
}

#[derive(Debug, PartialEq, Eq)]
pub struct PullRequestSummary {
    pub number: u64,
    pub title: String,
    pub author: String,
    pub source_branch: String,
    pub target_branch: String,
    pub labels: Vec<String>,
    pub draft: bool,
    pub state: String,
    pub updated_at: String,
    pub url: String,
}

#[verifier::ext_equal]
pub struct PullRequestSummaryView {
    pub number: u64,
    pub title: Seq<char>,
    pub author: Seq<char>,
    pub source_branch: Seq<char>,
    pub target_branch: Seq<char>,
    pub labels: Seq<Seq<char>>,
    pub draft: bool,
    pub state: Seq<char>,
    pub updated_at: Seq<char>,
    pub url: Seq<char>,
}

impl View for PullRequestSummary {
    type V = PullRequestSummaryView;

    open spec fn view(&self) -> PullRequestSummaryView {
        PullRequestSummaryView {
            number: self.number,
            title: self.title@,
            author: self.author@,
            source_branch: self.source_branch@,
            target_branch: self.target_branch@,
            labels: text::texts(self.labels@),
            draft: self.draft,
            state: self.state@,
            updated_at: self.updated_at@,
            url: self.url@,
        }
    }
}

impl Clone for PullRequestSummary {
    fn clone(&self) -> (r: Self)
        ensures
            r@ == self@,
    {
        PullRequestSummary {
            number: self.number,
            title: self.title.clone(),
            author: self.author.clone(),
            source_branch: self.source_branch.clone(),
            target_branch: self.target_branch.clone(),
            labels: text::clone_texts(&self.labels),
            draft: self.draft,
            state: self.state.clone(),
            updated_at: self.updated_at.clone(),
            url: self.url.clone(),
        }
    }
}

pub open spec fn pull_request_summary_views(s: Seq<PullRequestSummary>) -> Seq<PullRequestSummaryView> {
    s.map_values(|x: PullRequestSummary| x@)
}

/// One page of the index.
#[derive(Debug, PartialEq, Eq)]
pub struct PullRequestSummaryPage {
    pub summaries: Vec<PullRequestSummary>,
    pub page: usize,
    pub has_more: bool,
}

#[verifier::ext_equal]
pub struct PullRequestSummaryPageView {
    pub summaries: Seq<PullRequestSummaryView>,
    pub page: usize,
    pub has_more: bool,
}

impl View for PullRequestSummaryPage {
    type V = PullRequestSummaryPageView;

    open spec fn view(&self) -> PullRequestSummaryPageView {
        PullRequestSummaryPageView {
            summaries: pull_request_summary_views(self.summaries@),
            page: self.page,
            has_more: self.has_more,
        }
    }
}

/// What identifies the read of one page.
#[derive(Debug, PartialEq, Eq)]
pub struct BrowseToken {
    pub repository_key: String,
    pub account: Account,
    pub state: BrowseState,
    pub page: usize,
    pub generation: u64,
}

#[verifier::ext_equal]
pub struct BrowseTokenView {
    pub repository_key: Seq<char>,
    pub account: AccountView,
    pub state: BrowseState,
    pub page: usize,
    pub generation: u64,
}

impl View for BrowseToken {
    type V = BrowseTokenView;

    open spec fn view(&self) -> BrowseTokenView {
        BrowseTokenView {
            repository_key: self.repository_key@,
            account: self.account@,
            state: self.state,
            page: self.page,
            generation: self.generation,
        }
    }
}

impl Clone for BrowseToken {
    fn clone(&self) -> (r: Self)
        ensures
            r == *self,
    {
        BrowseToken {
            repository_key: self.repository_key.clone(),
            account: self.account.clone(),
            state: self.state,
            page: self.page,
            generation: self.generation,
        }
    }
}

impl BrowseToken {
    /// Whether two values agree in every field.
    pub fn same(&self, other: &Self) -> (r: bool)
        ensures
            r == (self@ == other@),
    {
        self.repository_key == other.repository_key
            && self.account.same(&other.account)
            && self.state == other.state
            && self.page == other.page
            && self.generation == other.generation
    }
}

/// The index as far as it was read, in the order of the provider. The filter narrows what is
/// loaded.
#[derive(Debug, PartialEq, Eq)]
pub struct PullRequestBrowser {
    pub repository_key: String,
    pub account: Account,
    pub generation: u64,
    pub state: BrowseState,
    pub load: LoadState,
    pub summaries: Vec<PullRequestSummary>,
    pub next_page: usize,
    pub has_more: bool,
    pub appending: bool,
    pub filter: String,
}

#[verifier::ext_equal]
pub struct PullRequestBrowserView {
    pub repository_key: Seq<char>,
    pub account: AccountView,
    pub generation: u64,
    pub state: BrowseState,
    pub load: LoadStateView,
    pub summaries: Seq<PullRequestSummaryView>,
    pub next_page: usize,
    pub has_more: bool,
    pub appending: bool,
    pub filter: Seq<char>,
}

impl View for PullRequestBrowser {
    type V = PullRequestBrowserView;

    open spec fn view(&self) -> PullRequestBrowserView {
        PullRequestBrowserView {
            repository_key: self.repository_key@,
            account: self.account@,
            generation: self.generation,
            state: self.state,
            load: self.load@,
            summaries: pull_request_summary_views(self.summaries@),
            next_page: self.next_page,
            has_more: self.has_more,
            appending: self.appending,
            filter: self.filter@,
        }
    }
}

impl BrowseToken {
    pub fn state(&self) -> (r: BrowseState)
        ensures
            r == self@.state,
    {
        self.state
    }

    pub fn page(&self) -> (r: usize)
        ensures
            r == self@.page,
    {
        self.page
    }
}

pub open spec fn loading() -> LoadStateView {
    LoadStateView::Loading("Loading pull requests…"@)
}

pub open spec fn one_more(n: u64) -> u64 {
    if n < u64::MAX {
        (n + 1) as u64
    } else {
        n
    }
}

pub open spec fn new_browser(repository_key: Seq<char>, account: AccountView) -> PullRequestBrowserView {
    PullRequestBrowserView {
        repository_key,
        account,
        generation: 0,
        state: BrowseState::Open,
        load: loading(),
        summaries: Seq::empty(),
        next_page: 1,
        has_more: false,
        appending: false,
        filter: Seq::empty(),
    }
}

/// Nothing is loaded, and nothing that is on its way counts. The filter stays.
pub open spec fn cleared(b: PullRequestBrowserView) -> PullRequestBrowserView {
    PullRequestBrowserView {
        generation: one_more(b.generation),
        summaries: Seq::empty(),
        next_page: 1,
        has_more: false,
        appending: false,
        load: loading(),
        ..b
    }
}

pub open spec fn retargeted(
    b: PullRequestBrowserView,
    repository_key: Seq<char>,
    account: AccountView,
) -> PullRequestBrowserView {
    if b.repository_key == repository_key && b.account == account {
        b
    } else {
        cleared(PullRequestBrowserView { repository_key, account, ..b })
    }
}

pub open spec fn switched(b: PullRequestBrowserView, state: BrowseState) -> PullRequestBrowserView {
    if b.state == state {
        b
    } else {
        cleared(PullRequestBrowserView { state, ..b })
    }
}

pub open spec fn reading(b: PullRequestBrowserView, append: bool) -> PullRequestBrowserView {
    if append {
        PullRequestBrowserView { appending: true, ..b }
    } else {
        PullRequestBrowserView {
            generation: one_more(b.generation),
            next_page: 1,
            appending: false,
            load: if b.summaries.len() == 0 {
                loading()
            } else {
                b.load
            },
            ..b
        }
    }
}

pub open spec fn token_of(b: PullRequestBrowserView) -> BrowseTokenView {
    BrowseTokenView {
        repository_key: b.repository_key,
        account: b.account,
        state: b.state,
        page: b.next_page,
        generation: b.generation,
    }
}

pub open spec fn is_accepted(b: PullRequestBrowserView, token: BrowseTokenView) -> bool {
    token.repository_key == b.repository_key && token.account == b.account && token.state == b.state
        && token.generation == b.generation
}

pub open spec fn installed(
    b: PullRequestBrowserView,
    page: PullRequestSummaryPageView,
) -> PullRequestBrowserView {
    PullRequestBrowserView {
        summaries: if page.page <= 1 {
            page.summaries
        } else {
            b.summaries + page.summaries
        },
        next_page: if page.page < usize::MAX {
            (page.page + 1) as usize
        } else {
            page.page
        },
        has_more: page.has_more,
        appending: false,
        load: LoadStateView::Ready,
        ..b
    }
}

pub open spec fn failed(b: PullRequestBrowserView, message: Seq<char>) -> PullRequestBrowserView {
    PullRequestBrowserView {
        appending: false,
        load: if b.summaries.len() == 0 {
            LoadStateView::Error(message)
        } else {
            LoadStateView::Cached(message)
        },
        ..b
    }
}

/// What the filter looks at in a pull request.
pub open spec fn searched_text_of(s: PullRequestSummaryView) -> Seq<char> {
    s.title + " #"@ + text::decimal(s.number as nat) + " "@ + s.author + " "@ + s.source_branch
        + " "@ + s.target_branch
}

pub fn searched_text(s: &PullRequestSummary) -> (r: String)
    ensures
        r@ == searched_text_of(s@),
{
    let mut out: String = s.title.clone();
    out.append(" #");
    out.append(&text::decimal_text(s.number));
    out.append(" ");
    out.append(&s.author);
    out.append(" ");
    out.append(&s.source_branch);
    out.append(" ");
    out.append(&s.target_branch);
    out
}

/// The places of the rows that hold the needle, in order.
pub open spec fn places_of(rows: Seq<Seq<char>>, needle: Seq<char>) -> Seq<usize>
    decreases rows.len(),
{
    if rows.len() == 0 {
        Seq::empty()
    } else {
        let before = places_of(rows.drop_last(), needle);
        if needle.len() == 0 || text::contains_text(rows.last(), needle) {
            before.push((rows.len() - 1) as usize)
        } else {
            before
        }
    }
}

/// The places of the rows that hold the needle; of all rows, where there is nothing to look
/// for.
pub fn matching_places(rows: &Vec<String>, needle: &str) -> (r: Vec<usize>)
    ensures
        r@ == places_of(text::texts(rows@), needle@),
{
    let ghost all = text::texts(rows@);
    let everything: bool = needle.is_empty();
    let mut out: Vec<usize> = Vec::new();
    let mut i: usize = 0;
    while i < rows.len()
        invariant
            all == text::texts(rows@),
            everything == (needle@.len() == 0),
            i <= rows@.len(),
            out@ == places_of(all.take(i as int), needle@),
        decreases rows.len() - i,
    {
        proof {
            assert(all.take(i + 1).drop_last() =~= all.take(i as int));
            assert(all.take(i + 1).last() == rows@[i as int]@);
        }
        if everything || text::contains(&rows[i], needle) {
            out.push(i);
        }
        i += 1;
    }
    proof {
        assert(all.take(i as int) =~= all);
    }
    out
}

/// The rows in lower case, as the filter sees them.
pub open spec fn lowered_rows_of(summaries: Seq<PullRequestSummaryView>) -> Seq<Seq<char>> {
    Seq::new(summaries.len(), |i: int| text::lowercase_of(searched_text_of(summaries[i])))
}

pub open spec fn needle_of(filter: Seq<char>) -> Seq<char> {
    text::lowercase_of(text::trimmed(filter))
}

impl PullRequestBrowser {
    pub fn new(repository_key: String, account: Account) -> (r: Self)
        ensures
            r@ == new_browser(repository_key@, account@),
    {
        let r = PullRequestBrowser {
            repository_key,
            account,
            generation: 0,
            state: BrowseState::Open,
            load: LoadState::Loading("Loading pull requests…".to_owned()),
            summaries: Vec::new(),
            next_page: 1,
            has_more: false,
            appending: false,
            filter: String::new(),
        };
        proof {
            assert(r@.summaries =~= Seq::<PullRequestSummaryView>::empty());
        }
        r
    }

    pub fn repository_key(&self) -> (r: &str)
        ensures
            r@ == self@.repository_key,
    {
        &self.repository_key
    }

    /// Turns to another repository. Returns whether anything changed.
    pub fn retarget(&mut self, repository_key: String, account: Account) -> (r: bool)
        ensures
            r == !(old(self)@.repository_key == repository_key@ && old(self)@.account == account@),
            final(self)@ == retargeted(old(self)@, repository_key@, account@),
    {
        if text::same_text(&self.repository_key, &repository_key) && self.account.same(&account) {
            return false;
        }
        self.repository_key = repository_key;
        self.account = account;
        self.reset();
        true
    }

    /// Turns to other pull requests. Returns whether anything changed.
    pub fn set_state(&mut self, state: BrowseState) -> (r: bool)
        ensures
            r == (old(self)@.state != state),
            final(self)@ == switched(old(self)@, state),
    {
        if self.state == state {
            return false;
        }
        self.state = state;
        self.reset();
        true
    }

    fn reset(&mut self)
        ensures
            final(self)@ == cleared(old(self)@),
    {
        self.generation = self.generation.saturating_add(1);
        self.summaries = Vec::new();
        self.next_page = 1;
        self.has_more = false;
        self.appending = false;
        self.load = LoadState::Loading("Loading pull requests…".to_owned());
        proof {
            assert(self@.summaries =~= Seq::<PullRequestSummaryView>::empty());
        }
    }

    /// Begins to read: the next page, or the first one anew.
    pub fn begin_read(&mut self, append: bool) -> (r: BrowseToken)
        ensures
            final(self)@ == reading(old(self)@, append),
            r@ == token_of(final(self)@),
    {
        if append {
            self.appending = true;
        } else {
            self.generation = self.generation.saturating_add(1);
            self.next_page = 1;
            self.appending = false;
            if self.summaries.len() == 0 {
                self.load = LoadState::Loading("Loading pull requests…".to_owned());
            }
        }
        BrowseToken {
            repository_key: self.repository_key.clone(),
            account: self.account.clone(),
            state: self.state,
            page: self.next_page,
            generation: self.generation,
        }
    }

    /// Whether a reply is for what is shown now.
    pub fn accepts(&self, token: &BrowseToken) -> (r: bool)
        ensures
            r == is_accepted(self@, token@),
    {
        text::same_text(&token.repository_key, &self.repository_key) && token.account.same(
            &self.account,
        ) && token.state == self.state && token.generation == self.generation
    }

    pub fn install(&mut self, page: PullRequestSummaryPage)
        ensures
            final(self)@ == installed(old(self)@, page@),
    {
        let mut rows = page.summaries;
        if page.page <= 1 {
            self.summaries = rows;
        } else {
            self.summaries.append(&mut rows);
        }
        self.next_page = page.page.saturating_add(1);
        self.has_more = page.has_more;
        self.appending = false;
        self.load = LoadState::Ready;
        proof {
            assert(self@.summaries =~= installed(old(self)@, page@).summaries);
        }
    }

    pub fn fail(&mut self, message: String)
        ensures
            final(self)@ == failed(old(self)@, message@),
    {
        self.appending = false;
        self.load = if self.summaries.len() == 0 {
            LoadState::Error(message)
        } else {
            LoadState::Cached(message)
        };
    }

    pub fn set_filter(&mut self, filter: String) -> (r: bool)
        ensures
            r == (old(self)@.filter != filter@),
            final(self)@ == (PullRequestBrowserView { filter: filter@, ..old(self)@ }),
    {
        if text::same_text(&self.filter, &filter) {
            return false;
        }
        self.filter = filter;
        true
    }

    fn lowered_rows(&self) -> (r: Vec<String>)
        ensures
            text::texts(r@) == lowered_rows_of(self@.summaries),
    {
        let mut out: Vec<String> = Vec::new();
        let mut i: usize = 0;
        while i < self.summaries.len()
            invariant
                i <= self.summaries@.len(),
                out@.len() == i,
                forall|k: int|
                    0 <= k < i ==> (#[trigger] out@[k])@ == text::lowercase_of(
                        searched_text_of(self.summaries@[k]@),
                    ),
            decreases self.summaries.len() - i,
        {
            out.push(text::lowercase_text(&searched_text(&self.summaries[i])));
            i += 1;
        }
        proof {
            assert(text::texts(out@) =~= lowered_rows_of(self@.summaries));
        }
        out
    }

    /// The places of the rows that the filter leaves.
    pub fn visible_indices(&self) -> (r: Vec<usize>)
        ensures
            r@ == places_of(lowered_rows_of(self@.summaries), needle_of(self@.filter)),
            text::trimmed(self@.filter).len() == 0 ==> r@.len() == self@.summaries.len(),
    {
        let needle = text::lowercase_text(&text::trim(&self.filter));
        let rows = self.lowered_rows();
        proof {
            assert(rows.len() <= usize::MAX);
            law_filtering_keeps_the_order(text::texts(rows@), needle@);
        }
        matching_places(&rows, &needle)
    }

    pub fn summary(&self, index: usize) -> (r: Option<&PullRequestSummary>)
        ensures
            match r {
                Some(s) => index < self@.summaries.len() && s@ == self@.summaries[index as int],
                None => index >= self@.summaries.len(),
            },
    {
        if index < self.summaries.len() {
            Some(&self.summaries[index])
        } else {
            None
        }
    }
}

// ---------------------------------------------------------------------------
// Laws

/// A change of the repository or of the state, and a reload, refuse every earlier reply. (The
/// generation counts up to its last number.)
pub proof fn law_superseded_replies_are_refused(
    b: PullRequestBrowserView,
    token: BrowseTokenView,
    repository_key: Seq<char>,
    account: AccountView,
    state: BrowseState,
)
    requires
        token.generation <= b.generation < u64::MAX,
    ensures
        retargeted(b, repository_key, account) != b ==> !is_accepted(
            retargeted(b, repository_key, account),
            token,
        ),
        switched(b, state) != b ==> !is_accepted(switched(b, state), token),
        !is_accepted(reading(b, false), token),
        is_accepted(reading(b, false), token_of(reading(b, false))),
{
}

/// A page that is appended keeps the order of what is loaded; a failure loses nothing.
pub proof fn law_loaded_rows_stay(
    b: PullRequestBrowserView,
    page: PullRequestSummaryPageView,
    message: Seq<char>,
)
    ensures
        page.page > 1 ==> installed(b, page).summaries.take(b.summaries.len() as int)
            == b.summaries,
        failed(b, message).summaries == b.summaries,
        b.summaries.len() > 0 ==> !(failed(b, message).load is Error),
{
    if page.page > 1 {
        assert(installed(b, page).summaries.take(b.summaries.len() as int) =~= b.summaries);
    }
}

/// The filter survives a change of the repository and of the state.
pub proof fn law_the_filter_survives(
    b: PullRequestBrowserView,
    repository_key: Seq<char>,
    account: AccountView,
    state: BrowseState,
)
    ensures
        retargeted(b, repository_key, account).filter == b.filter,
        switched(b, state).filter == b.filter,
{
}

/// The rows that a filter leaves are among those loaded, in their order, and nothing to look
/// for leaves them all.
pub proof fn law_filtering_keeps_the_order(rows: Seq<Seq<char>>, needle: Seq<char>)
    requires
        rows.len() <= usize::MAX,
    ensures
        forall|i: int|
            0 <= i < places_of(rows, needle).len() ==> (#[trigger] places_of(rows, needle)[i])
                < rows.len(),
        forall|i: int, j: int|
            0 <= i < j < places_of(rows, needle).len() ==> (#[trigger] places_of(
                rows,
                needle,
            )[i]) < (#[trigger] places_of(rows, needle)[j]),
        needle.len() == 0 ==> places_of(rows, needle).len() == rows.len(),
    decreases rows.len(),
{
    if rows.len() > 0 {
        let before = places_of(rows.drop_last(), needle);
        let all = places_of(rows, needle);
        law_filtering_keeps_the_order(rows.drop_last(), needle);
        assert forall|i: int| 0 <= i < all.len() implies (#[trigger] all[i]) < rows.len() by {
            if i < before.len() {
                assert(all[i] == before[i]);
            }
        }
        assert forall|i: int, j: int| 0 <= i < j < all.len() implies (#[trigger] all[i]) < (
        #[trigger] all[j]) by {
            assert(all[i] == before[i]);
            if j < before.len() {
                assert(all[j] == before[j]);
            }
        }
    }
}

} // verus!

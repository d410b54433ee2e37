//! What the list of pull requests is for: which rows are there after each step, and which of
//! them a filter leaves.

use vstd::prelude::*;

use crate::domain::AccountView;
use crate::pr_browser;
use crate::pr_browser::{
    BrowseState, BrowseTokenView, LoadStateView, PullRequestBrowserView, PullRequestSummaryPageView,
    PullRequestSummaryView,
};
use crate::text;

verus! {

/// After a first page the rows are those of that page, whatever was loaded before; after a later
/// one they are the rows that were there, followed by those of that page.
pub proof fn law_pages_follow_one_another(
    b: PullRequestBrowserView,
    page: PullRequestSummaryPageView,
)
    ensures
        ({
            let rows = pr_browser::installed(b, page).summaries;
            let n = b.summaries.len();
            &&& page.page <= 1 ==> rows == page.summaries
            &&& page.page > 1 ==> {
                &&& rows.len() == n + page.summaries.len()
                &&& forall|i: int| 0 <= i < n ==> #[trigger] rows[i] == b.summaries[i]
                &&& forall|i: int|
                    0 <= i < page.summaries.len() ==> rows[n + i] == #[trigger] page.summaries[i]
            }
        }),
{
}

/// A reload that succeeds shows what was read and nothing of before, however much was loaded.
pub proof fn law_a_reload_replaces_the_rows(
    b: PullRequestBrowserView,
    page: PullRequestSummaryPageView,
)
    requires
        page.page == pr_browser::token_of(pr_browser::reading(b, false)).page,
    ensures
        pr_browser::installed(pr_browser::reading(b, false), page).summaries == page.summaries,
{
}

/// Once a page is there the next one is asked for, as long as there is one; the page itself says
/// whether there is.
pub proof fn law_the_next_page_is_asked_for(
    b: PullRequestBrowserView,
    page: PullRequestSummaryPageView,
)
    ensures
        ({
            let shown = pr_browser::installed(b, page);
            let more = pr_browser::reading(shown, true);
            &&& shown.has_more == page.has_more
            &&& shown.load is Ready
            &&& !shown.appending
            &&& more.appending
            &&& page.page < usize::MAX ==> pr_browser::token_of(more).page == page.page + 1
            &&& page.page == usize::MAX ==> pr_browser::token_of(more).page == page.page
            &&& more == PullRequestBrowserView { appending: true, ..shown }
            &&& shown.repository_key == b.repository_key
            &&& shown.account == b.account
            &&& shown.generation == b.generation
            &&& shown.state == b.state
            &&& shown.filter == b.filter
        }),
{
}

/// A reload asks for the first page, under a number of its own, and leaves the rows that are
/// there until it is answered.
pub proof fn law_a_reload_asks_for_the_first_page(b: PullRequestBrowserView)
    ensures
        ({
            let asked = pr_browser::reading(b, false);
            &&& pr_browser::token_of(asked).page == 1
            &&& b.generation < u64::MAX ==> asked.generation == b.generation + 1
            &&& b.generation == u64::MAX ==> asked.generation == b.generation
            &&& asked.summaries == b.summaries
            &&& !asked.appending
            &&& b.summaries.len() > 0 ==> asked.load == b.load
            &&& b.summaries.len() == 0 ==> asked.load == LoadStateView::Loading(
                "Loading pull requests…"@,
            )
            &&& asked.has_more == b.has_more
            &&& asked.repository_key == b.repository_key
            &&& asked.account == b.account
            &&& asked.state == b.state
            &&& asked.filter == b.filter
        }),
{
}

/// A request says what it is for, and its reply is taken exactly while that is what is shown.
pub proof fn law_replies_are_for_what_is_shown(
    b: PullRequestBrowserView,
    now: PullRequestBrowserView,
)
    ensures
        ({
            let token = pr_browser::token_of(b);
            &&& token == (BrowseTokenView {
                repository_key: b.repository_key,
                account: b.account,
                state: b.state,
                page: b.next_page,
                generation: b.generation,
            })
            &&& pr_browser::is_accepted(now, token) <==> {
                &&& now.repository_key == b.repository_key
                &&& now.account == b.account
                &&& now.state == b.state
                &&& now.generation == b.generation
            }
            &&& pr_browser::is_accepted(b, token)
        }),
{
}

/// Turning to another repository, account or state empties the list and starts over; turning to
/// what is shown changes nothing.
pub proof fn law_turning_away_empties_the_list(
    b: PullRequestBrowserView,
    repository_key: Seq<char>,
    account: AccountView,
    state: BrowseState,
)
    ensures
        ({
            let moved = pr_browser::retargeted(b, repository_key, account);
            let same = b.repository_key == repository_key && b.account == account;
            let turned = pr_browser::switched(b, state);
            &&& same ==> moved == b
            &&& !same ==> {
                &&& moved.repository_key == repository_key
                &&& moved.account == account
                &&& moved.state == b.state
                &&& starts_over(b, moved)
            }
            &&& b.state == state ==> turned == b
            &&& b.state != state ==> {
                &&& turned.state == state
                &&& turned.repository_key == b.repository_key
                &&& turned.account == b.account
                &&& starts_over(b, turned)
            }
        }),
{
}

/// Whether nothing is loaded or on its way any more.
pub open spec fn starts_over(before: PullRequestBrowserView, after: PullRequestBrowserView) -> bool {
    &&& after.summaries.len() == 0
    &&& after.next_page == 1
    &&& !after.has_more
    &&& !after.appending
    &&& after.load == LoadStateView::Loading("Loading pull requests…"@)
    &&& after.filter == before.filter
    &&& before.generation < u64::MAX ==> after.generation == before.generation + 1
    &&& before.generation == u64::MAX ==> after.generation == before.generation
}

/// A failure is an error where nothing is loaded, and a note beside the rows where something
/// is; it says what went wrong and changes nothing else.
pub proof fn law_a_failure_is_said(b: PullRequestBrowserView, message: Seq<char>)
    ensures
        ({
            let after = pr_browser::failed(b, message);
            &&& b.summaries.len() == 0 ==> after.load == LoadStateView::Error(message)
            &&& b.summaries.len() > 0 ==> after.load == LoadStateView::Cached(message)
            &&& !after.appending
            &&& after == PullRequestBrowserView { load: after.load, appending: false, ..b }
        }),
{
}

/// A new list is of the open pull requests of this repository, with nothing loaded.
pub proof fn law_a_new_list_is_of_open_pull_requests(
    repository_key: Seq<char>,
    account: AccountView,
)
    ensures
        ({
            let b = pr_browser::new_browser(repository_key, account);
            &&& b.repository_key == repository_key
            &&& b.account == account
            &&& b.state is Open
            &&& b.summaries.len() == 0
            &&& b.next_page == 1
            &&& !b.has_more
            &&& !b.appending
            &&& b.filter.len() == 0
            &&& b.load == LoadStateView::Loading("Loading pull requests…"@)
        }),
{
}

/// A row is left by the filter exactly if it holds what is looked for, or nothing is looked for.
pub proof fn law_the_filter_leaves_what_matches(
    rows: Seq<Seq<char>>,
    needle: Seq<char>,
    place: usize,
)
    requires
        rows.len() <= usize::MAX,
    ensures
        pr_browser::places_of(rows, needle).contains(place) <==> place < rows.len() && (needle.len()
            == 0 || text::contains_text(rows[place as int], needle)),
    decreases rows.len(),
{
    if rows.len() > 0 {
        let before = pr_browser::places_of(rows.drop_last(), needle);
        let all = pr_browser::places_of(rows, needle);
        let last: usize = (rows.len() - 1) as usize;
        law_the_filter_leaves_what_matches(rows.drop_last(), needle, place);
        if needle.len() == 0 || text::contains_text(rows.last(), needle) {
            assert(all == before.push(last));
            assert(all[before.len() as int] == last);
            if before.contains(place) {
                let i = before.index_of(place);
                assert(all[i] == place);
            }
            if all.contains(place) && place != last {
                let i = all.index_of(place);
                assert(before[i] == place);
            }
        }
        if place < last {
            assert(rows.drop_last()[place as int] == rows[place as int]);
        }
    }
}

/// A loaded row is visible exactly if its text holds the trimmed filter, both in lower case, or
/// the filter comes to nothing.
pub proof fn law_visible_rows_hold_the_filter(b: PullRequestBrowserView, place: usize)
    requires
        b.summaries.len() <= usize::MAX,
    ensures
        ({
            let needle = text::lowercase_of(text::trimmed(b.filter));
            pr_browser::places_of(
                pr_browser::lowered_rows_of(b.summaries),
                pr_browser::needle_of(b.filter),
            ).contains(place) <==> place < b.summaries.len() && (needle.len() == 0
                || text::contains_text(
                text::lowercase_of(pr_browser::searched_text_of(b.summaries[place as int])),
                needle,
            ))
        }),
{
    law_the_filter_leaves_what_matches(
        pr_browser::lowered_rows_of(b.summaries),
        pr_browser::needle_of(b.filter),
        place,
    );
}

/// A pull request is found by its title, its number, its author and either of its branches.
pub proof fn law_the_filter_sees_each_part(s: PullRequestSummaryView)
    ensures
        ({
            let seen = pr_browser::searched_text_of(s);
            &&& text::contains_text(seen, s.title)
            &&& text::contains_text(seen, "#"@ + text::decimal(s.number as nat))
            &&& text::contains_text(seen, s.author)
            &&& text::contains_text(seen, s.source_branch)
            &&& text::contains_text(seen, s.target_branch)
        }),
{
    let seen = pr_browser::searched_text_of(s);
    let number = text::decimal(s.number as nat);
    reveal_strlit(" #");
    reveal_strlit("#");
    reveal_strlit(" ");
    let a = s.title.len() as int;
    let b = a + 2 + number.len();
    let c = b + 1 + s.author.len();
    let d = c + 1 + s.source_branch.len();
    assert(seen.subrange(0, a) =~= s.title);
    assert(text::found_at(seen, s.title, 0));
    assert(seen.subrange(a + 1, b) =~= "#"@ + number);
    assert(text::found_at(seen, "#"@ + number, a + 1));
    assert(seen.subrange(b + 1, c) =~= s.author);
    assert(text::found_at(seen, s.author, b + 1));
    assert(seen.subrange(c + 1, d) =~= s.source_branch);
    assert(text::found_at(seen, s.source_branch, c + 1));
    assert(seen.subrange(d + 1, d + 1 + s.target_branch.len()) =~= s.target_branch);
    assert(text::found_at(seen, s.target_branch, d + 1));
}

/// Each state is asked for and shown by its own word.
pub proof fn law_states_are_named()
    ensures
        pr_browser::query_of(BrowseState::Open) == "open"@,
        pr_browser::query_of(BrowseState::Closed) == "closed"@,
        pr_browser::query_of(BrowseState::All) == "all"@,
        forall|s: BrowseState| #[trigger]
            text::lower(pr_browser::label_of(s)) == pr_browser::query_of(s),
{
    reveal_strlit("open");
    reveal_strlit("closed");
    reveal_strlit("all");
    reveal_strlit("Open");
    reveal_strlit("Closed");
    reveal_strlit("All");
    assert forall|s: BrowseState| #[trigger] text::lower(pr_browser::label_of(s))
        == pr_browser::query_of(s) by {
        assert(text::lower(pr_browser::label_of(s)) =~= pr_browser::query_of(s));
    }
}

/// Numbers count on by one and stay at the last one.
pub proof fn law_numbers_count_on(n: u64)
    ensures
        n < u64::MAX ==> pr_browser::one_more(n) == n + 1,
        pr_browser::one_more(u64::MAX) == u64::MAX,
{
}

} // verus!

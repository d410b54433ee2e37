use cibergit::domain::Account;
use cibergit::pr_browser::{
    matching_places, searched_text, BrowseState, LoadState, PullRequestBrowser,
    PullRequestSummary, PullRequestSummaryPage,
};

fn account(login: &str) -> Account {
    Account {
        host: "github.com".into(),
        login: login.into(),
    }
}

fn browser() -> PullRequestBrowser {
    PullRequestBrowser::new("github.com/acme/workspace".into(), account("ada"))
}

/// What the list would paint, in the order it would paint it.
fn visible_numbers(browser: &PullRequestBrowser) -> Vec<u64> {
    browser
        .visible_indices()
        .into_iter()
        .map(|index| browser.summary(index).expect("a visible row exists").number)
        .collect()
}

fn summary(number: u64, title: &str, state: &str) -> PullRequestSummary {
    PullRequestSummary {
        number,
        title: title.into(),
        author: "ada".into(),
        source_branch: "feature".into(),
        target_branch: "main".into(),
        labels: Vec::new(),
        draft: false,
        state: state.into(),
        updated_at: "2026-09-12T12:00:00Z".into(),
        url: format!("https://github.com/acme/workspace/pull/{number}"),
    }
}

fn page(page: usize, summaries: Vec<PullRequestSummary>, has_more: bool) -> PullRequestSummaryPage {
    PullRequestSummaryPage {
        summaries,
        page,
        has_more,
    }
}

#[test]
fn appending_keeps_order_and_advances_the_page() {
    let mut browser = browser();
    let first = browser.begin_read(false);
    assert_eq!(first.page(), 1);
    browser.install(page(1, vec![summary(9, "newest", "MERGED")], true));
    assert!(browser.has_more);

    let second = browser.begin_read(true);
    assert_eq!(second.page(), 2);
    assert!(browser.appending);
    browser.install(page(2, vec![summary(4, "older", "CLOSED")], false));

    let numbers = visible_numbers(&browser);
    assert_eq!(numbers, [9, 4]);
    assert_eq!(browser.next_page, 3);
    assert!(!browser.has_more && !browser.appending);
    assert!(matches!(browser.load, LoadState::Ready));
}

#[test]
fn switching_state_clears_rows_and_refuses_the_reply_in_flight() {
    let mut browser = browser();
    let stale = browser.begin_read(false);
    browser.install(page(1, vec![summary(9, "open one", "OPEN")], true));

    assert!(browser.set_state(BrowseState::Closed));
    assert!(browser.summaries.is_empty());
    assert_eq!(browser.next_page, 1);
    assert!(!browser.accepts(&stale), "a superseded reply must be dropped");

    let fresh = browser.begin_read(false);
    assert_eq!(fresh.state(), BrowseState::Closed);
    assert!(browser.accepts(&fresh));
    assert!(!browser.set_state(BrowseState::Closed), "no read for a no-op");
}

#[test]
fn retargeting_another_repository_refuses_the_previous_reply() {
    let mut browser = browser();
    let stale = browser.begin_read(false);
    browser.install(page(1, vec![summary(9, "theirs", "OPEN")], false));

    assert!(browser.retarget("github.com/acme/other".into(), account("ada")));
    assert!(!browser.accepts(&stale));
    assert!(browser.summaries.is_empty());
    assert!(!browser.retarget("github.com/acme/other".into(), account("ada")));
}

#[test]
fn a_failed_first_page_errors_and_a_failed_later_page_keeps_what_is_loaded() {
    let mut browser = browser();
    browser.begin_read(false);
    browser.fail("GitHub read unavailable".into());
    assert!(matches!(browser.load, LoadState::Error(_)));

    browser.install(page(1, vec![summary(9, "kept", "OPEN")], true));
    browser.begin_read(true);
    browser.fail("GitHub read unavailable".into());
    assert!(matches!(browser.load, LoadState::Cached(_)));
    assert_eq!(visible_numbers(&browser), [9], "loaded rows survive a failure");
    assert!(!browser.appending);
}

#[test]
fn the_filter_narrows_loaded_rows_by_title_number_author_and_branch() {
    let mut browser = browser();
    browser.begin_read(false);
    let mut other = summary(4, "Unrelated", "CLOSED");
    other.author = "grace".into();
    other.source_branch = "hotfix".into();
    browser.install(page(1, vec![summary(9, "Compact the chrome", "MERGED"), other], false));

    for (needle, expected) in [
        ("chrome", vec![9]),
        ("CHROME", vec![9]),
        ("#4", vec![4]),
        ("grace", vec![4]),
        ("hotfix", vec![4]),
        ("main", vec![9, 4]),
        ("nothing here", vec![]),
    ] {
        browser.set_filter(needle.into());
        let numbers = visible_numbers(&browser);
        assert_eq!(numbers, expected, "filtering by {needle}");
    }

    browser.set_filter("  ".into());
    assert_eq!(visible_numbers(&browser).len(), 2, "a blank filter narrows nothing");
}

#[test]
fn the_filter_survives_a_state_switch() {
    let mut browser = browser();
    browser.set_filter("chrome".into());
    browser.set_state(BrowseState::All);
    assert_eq!(browser.filter, "chrome");
}

#[test]
fn states_have_their_names() {
    assert_eq!(BrowseState::default(), BrowseState::Open);
    assert_eq!(BrowseState::Closed.query(), "closed");
    assert_eq!(BrowseState::All.label(), "All");
}

#[test]
fn rows_are_found_by_their_searched_text() {
    let row = searched_text(&summary(9, "Title", "OPEN"));
    assert_eq!(row, "Title #9 ada feature main");
    assert_eq!(
        matching_places(&vec!["one".into(), "two".into(), "stone".into()], "one"),
        [0, 2]
    );
    assert_eq!(matching_places(&vec!["one".into(), "two".into()], ""), [0, 1]);
}

#[test]
fn the_filter_ignores_the_case_of_other_scripts() {
    let mut browser = browser();
    browser.begin_read(false);
    browser.install(page(1, vec![summary(9, "ÄNDERUNG", "OPEN")], false));
    browser.set_filter("änderung".into());
    assert_eq!(visible_numbers(&browser), [9]);
    assert!(!browser.set_filter("änderung".into()));
}

use cibergit::markdown_highlight::{language_key, needs_new_highlighter};
use cibergit::page_window::{
    outside_window, px, Band, PageWindow, Placement, Travel, Viewport, LEAD_PIXELS, TRAIL_PIXELS,
};

const VIEWPORT_PIXELS: i32 = 900;

/// The reader is ten thousand pixels down a long conversation.
const SCROLLED: i32 = 10_000;

fn band(top: i32, height: i32) -> Band {
    Band {
        top: px(top),
        height: px(height),
    }
}

#[test]
fn a_row_in_the_viewport_is_inside_the_window() {
    assert!(!outside_window(
        band(SCROLLED, 400),
        px(SCROLLED),
        px(VIEWPORT_PIXELS),
        Travel::Down
    ));
}

#[test]
fn a_row_within_the_lead_is_still_inside_the_window() {
    let below = band(SCROLLED + VIEWPORT_PIXELS + LEAD_PIXELS - 1, 400);
    assert!(!outside_window(
        below,
        px(SCROLLED),
        px(VIEWPORT_PIXELS),
        Travel::Down
    ));
    let above = band(SCROLLED - LEAD_PIXELS - 399, 400);
    assert!(!outside_window(
        above,
        px(SCROLLED),
        px(VIEWPORT_PIXELS),
        Travel::Up
    ));
}

#[test]
fn a_row_past_the_lead_becomes_a_spacer() {
    let below = band(SCROLLED + VIEWPORT_PIXELS + LEAD_PIXELS, 400);
    assert!(outside_window(
        below,
        px(SCROLLED),
        px(VIEWPORT_PIXELS),
        Travel::Down
    ));
    let above = band(SCROLLED - LEAD_PIXELS - 400, 400);
    assert!(outside_window(
        above,
        px(SCROLLED),
        px(VIEWPORT_PIXELS),
        Travel::Up
    ));
}

#[test]
fn a_row_behind_the_reader_is_kept_only_to_the_trail() {
    let behind = band(SCROLLED - TRAIL_PIXELS - 399, 400);
    assert!(!outside_window(
        behind,
        px(SCROLLED),
        px(VIEWPORT_PIXELS),
        Travel::Down
    ));
    let further = band(SCROLLED - TRAIL_PIXELS - 400, 400);
    assert!(outside_window(
        further,
        px(SCROLLED),
        px(VIEWPORT_PIXELS),
        Travel::Down
    ));
    assert!(
        !outside_window(further, px(SCROLLED), px(VIEWPORT_PIXELS), Travel::Up),
        "the same row is built once the reader turns back towards it"
    );
}

#[test]
fn an_unlaid_out_page_records_no_width_to_be_resized_from() {
    let mut window = PageWindow::new();
    let unlaid = Viewport {
        width: 0,
        height: 0,
        scrolled: 0,
    };
    let _ = window.row("comment-1", unlaid);
    assert_eq!(window.width(), None);
    assert_eq!(window.built_rows(), 1, "an unmeasured row must be built");
}

fn viewport(width: i32, scrolled: i32) -> Viewport {
    Viewport {
        width: px(width),
        height: px(VIEWPORT_PIXELS),
        scrolled: px(scrolled),
    }
}

#[test]
fn far_rows_become_spacers_of_their_height_until_the_page_is_resized() {
    let mut window = PageWindow::new();
    assert_eq!(window.row("far", viewport(600, 0)), Placement::Row);
    window.record("far".into(), band(SCROLLED, 400));
    assert_eq!(
        window.row("far", viewport(600, 0)),
        Placement::Spacer(px(400))
    );
    assert_eq!(window.row("far", viewport(500, 0)), Placement::Row);
    window.record("far".into(), band(SCROLLED, 500));
    assert_eq!(
        window.row("far", viewport(500, SCROLLED - 200)),
        Placement::Row
    );
    assert_eq!(
        window.row("far", viewport(500, 0)),
        Placement::Spacer(px(500))
    );
    assert_eq!(window.built_rows(), 3);
}

#[test]
fn blocks_without_a_language_or_text_are_not_coloured() {
    assert_eq!(language_key(&Some(" Rust ".into()), "fn"), Some("rust".into()));
    assert_eq!(language_key(&Some("  ".into()), "fn"), None);
    assert_eq!(language_key(&None, "fn"), None);
    assert_eq!(language_key(&Some("rust".into()), ""), None);
    assert!(needs_new_highlighter(&None, &None));
    assert!(needs_new_highlighter(&Some("text".into()), &Some("rust".into())));
    assert!(!needs_new_highlighter(&Some("rust".into()), &Some("rust".into())));
    assert!(!needs_new_highlighter(&Some("text".into()), &None));
}

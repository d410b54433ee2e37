//! Building only the part of a long scrolling page that a reader can see.
//!
//! Each row reports where it landed and how tall it was. A row whose remembered band lies well
//! outside the viewport is replaced by a spacer of its own last height, so the page keeps its
//! length while only the rows near the reader are built. A row whose height is not known is
//! always built.

use vstd::prelude::*;

use crate::text_map::TextMap;

pub mod laws;

verus! {

/// Lengths are whole numbers of this part of a pixel.
pub const PARTS_PER_PIXEL: i64 = 1024;

/// How far ahead of the viewport a row is still built, in pixels.
pub const LEAD_PIXELS: i32 = 700;

/// How far behind the viewport a row is still built, in pixels.
pub const TRAIL_PIXELS: i32 = 200;

/// Which way the page last moved under the reader.
#[derive(Clone, Copy, Debug, PartialEq, Eq, Structural)]
pub enum Travel {
    Down,
    Up,
}

impl Default for Travel {
    fn default() -> (r: Self)
        ensures
            r == Travel::Down,
    {
        Travel::Down
    }
}

/// Where a row sat in the page, from the top of the content, and how tall it was there.
#[derive(Clone, Copy, Debug, PartialEq, Eq, Structural)]
pub struct Band {
    pub top: i64,
    pub height: i64,
}

/// What the page looks like while a row is built: the size of the viewport, and how far its top
/// lies from the top of the content.
#[derive(Clone, Copy, Debug, PartialEq, Eq, Structural)]
pub struct Viewport {
    pub width: i64,
    pub height: i64,
    pub scrolled: i64,
}

/// What stands in a row's place.
#[derive(Clone, Copy, Debug, PartialEq, Eq, Structural)]
pub enum Placement {
    Row,
    Spacer(i64),
}

pub fn px(pixels: i32) -> (r: i64)
    ensures
        r == pixels * PARTS_PER_PIXEL,
{
    (pixels as i64) * PARTS_PER_PIXEL
}

/// How far a row is still built above the viewport.
pub open spec fn over(travel: Travel) -> int {
    PARTS_PER_PIXEL * match travel {
        Travel::Down => TRAIL_PIXELS as int,
        Travel::Up => LEAD_PIXELS as int,
    }
}

/// How far a row is still built below the viewport.
pub open spec fn under(travel: Travel) -> int {
    PARTS_PER_PIXEL * match travel {
        Travel::Down => LEAD_PIXELS as int,
        Travel::Up => TRAIL_PIXELS as int,
    }
}

/// Whether a band is far enough from the viewport for a spacer to stand in.
pub open spec fn is_outside(
    band: Band,
    scrolled: int,
    viewport_height: int,
    travel: Travel,
) -> bool {
    band.top >= scrolled + viewport_height + under(travel) || band.top + band.height <= scrolled
        - over(travel)
}

pub fn outside_window(band: Band, scrolled: i64, viewport_height: i64, travel: Travel) -> (r: bool)
    ensures
        r == is_outside(band, scrolled as int, viewport_height as int, travel),
{
    let (above, ahead): (i64, i64) = match travel {
        Travel::Down => (px(TRAIL_PIXELS), px(LEAD_PIXELS)),
        Travel::Up => (px(LEAD_PIXELS), px(TRAIL_PIXELS)),
    };
    band.top as i128 >= scrolled as i128 + viewport_height as i128 + ahead as i128
        || band.top as i128 + band.height as i128 <= scrolled as i128 - above as i128
}

/// The remembered geometry of one scrolling page.
pub struct PageWindow {
    width: Option<i64>,
    scrolled: i64,
    travel: Travel,
    rows: TextMap<Band>,
    built: u64,
}

#[verifier::ext_equal]
pub struct PageWindowView {
    /// The width that rows were last built against.
    pub width: Option<i64>,
    pub scrolled: i64,
    pub travel: Travel,
    pub rows: Map<Seq<char>, Band>,
    /// How many rows were built.
    pub built: u64,
}

impl View for PageWindow {
    type V = PageWindowView;

    closed spec fn view(&self) -> PageWindowView {
        PageWindowView {
            width: self.width,
            scrolled: self.scrolled,
            travel: self.travel,
            rows: self.rows@,
            built: self.built,
        }
    }
}

pub open spec fn laid_out(viewport: Viewport) -> bool {
    viewport.width > 0 && viewport.height > 0
}

/// What a page learns from the viewport. A page that is not laid out yet tells nothing; another
/// width makes every remembered height void; to learn the width at first is no resize.
pub open spec fn observed(w: PageWindowView, viewport: Viewport) -> PageWindowView {
    if !laid_out(viewport) {
        w
    } else {
        PageWindowView {
            width: Some(viewport.width),
            scrolled: viewport.scrolled,
            travel: if viewport.scrolled > w.scrolled {
                Travel::Down
            } else if viewport.scrolled < w.scrolled {
                Travel::Up
            } else {
                w.travel
            },
            rows: if w.width is Some && w.width != Some(viewport.width) {
                Map::empty()
            } else {
                w.rows
            },
            ..w
        }
    }
}

/// What stands in a row's place.
pub open spec fn placement_of(w: PageWindowView, key: Seq<char>, viewport: Viewport) -> Placement {
    let seen = observed(w, viewport);
    if laid_out(viewport) && seen.rows.contains_key(key) && is_outside(
        seen.rows[key],
        viewport.scrolled as int,
        viewport.height as int,
        seen.travel,
    ) {
        Placement::Spacer(seen.rows[key].height)
    } else {
        Placement::Row
    }
}

/// A page after a row was placed. The count of rows stops at its largest value.
pub open spec fn placed(w: PageWindowView, key: Seq<char>, viewport: Viewport) -> PageWindowView {
    let seen = observed(w, viewport);
    if placement_of(w, key, viewport) is Row && seen.built < u64::MAX {
        PageWindowView { built: (seen.built + 1) as u64, ..seen }
    } else {
        seen
    }
}

pub open spec fn fresh_page() -> PageWindowView {
    PageWindowView {
        width: None,
        scrolled: 0,
        travel: Travel::Down,
        rows: Map::empty(),
        built: 0,
    }
}

impl PageWindow {
    pub fn new() -> (r: Self)
        ensures
            r@ == fresh_page(),
    {
        PageWindow { width: None, scrolled: 0, travel: Travel::Down, rows: TextMap::new(), built: 0 }
    }

    fn observe(&mut self, viewport: Viewport)
        requires
            laid_out(viewport),
        ensures
            final(self)@ == observed(old(self)@, viewport),
    {
        if let Some(previous) = self.width {
            if previous != viewport.width {
                self.rows = TextMap::new();
            }
        }
        self.width = Some(viewport.width);
        if viewport.scrolled > self.scrolled {
            self.travel = Travel::Down;
        } else if viewport.scrolled < self.scrolled {
            self.travel = Travel::Up;
        }
        self.scrolled = viewport.scrolled;
    }

    /// Says whether a row is built or a spacer stands in. The key names what the row shows, not
    /// its position.
    pub fn row(&mut self, key: &str, viewport: Viewport) -> (r: Placement)
        ensures
            r == placement_of(old(self)@, key@, viewport),
            final(self)@ == placed(old(self)@, key@, viewport),
    {
        if viewport.width > 0 && viewport.height > 0 {
            self.observe(viewport);
            if let Some(band) = self.rows.get(key) {
                if outside_window(*band, viewport.scrolled, viewport.height, self.travel) {
                    return Placement::Spacer(band.height);
                }
            }
        }
        if self.built < u64::MAX {
            self.built = self.built + 1;
        }
        Placement::Row
    }

    /// Takes note of where a row, or the spacer in its place, landed.
    pub fn record(&mut self, key: String, band: Band)
        ensures
            final(self)@ == (PageWindowView {
                rows: old(self)@.rows.insert(key@, band),
                ..old(self)@
            }),
    {
        self.rows.insert(key, band);
    }

    pub fn width(&self) -> (r: Option<i64>)
        ensures
            r == self@.width,
    {
        self.width
    }

    /// How many rows were built since the page was made.
    pub fn built_rows(&self) -> (r: u64)
        ensures
            r == self@.built,
    {
        self.built
    }
}

// ---------------------------------------------------------------------------
// Laws

/// A row that is not measured is built, and so is every row after a resize.
pub proof fn law_unmeasured_rows_are_built(
    w: PageWindowView,
    key: Seq<char>,
    viewport: Viewport,
)
    ensures
        !w.rows.contains_key(key) ==> placement_of(w, key, viewport) == Placement::Row,
        laid_out(viewport) && w.width is Some && w.width != Some(viewport.width) ==> placement_of(
            w,
            key,
            viewport,
        ) == Placement::Row,
        !laid_out(viewport) ==> placement_of(w, key, viewport) == Placement::Row && observed(
            w,
            viewport,
        ) == w,
{
}

/// A spacer is as tall as the row was, so the page keeps its length.
pub proof fn law_spacers_keep_the_length(w: PageWindowView, key: Seq<char>, viewport: Viewport)
    ensures
        placement_of(w, key, viewport) matches Placement::Spacer(height) ==> w.rows.contains_key(
            key,
        ) && height == w.rows[key].height,
{
}

/// A row that a reader can see is built.
pub proof fn law_visible_rows_are_built(
    band: Band,
    scrolled: int,
    viewport_height: int,
    travel: Travel,
)
    requires
        band.top < scrolled + viewport_height,
        band.top + band.height > scrolled,
    ensures
        !is_outside(band, scrolled, viewport_height, travel),
{
}

} // verus!

//! What the window on a page is for: which rows are built, what stands for the others, and what
//! is learnt of the viewport.

use vstd::prelude::*;

use crate::page_window;
use crate::page_window::{Band, PageWindowView, Placement, Travel, Viewport};

verus! {

/// A row is left out exactly if it lies 700 pixels or more ahead of the viewport, or 200 or more
/// behind it, as the reader goes; a pixel has 1024 parts.
pub proof fn law_rows_are_built_further_ahead(band: Band, scrolled: int, height: int)
    ensures
        page_window::is_outside(band, scrolled, height, Travel::Down) <==> band.top >= scrolled
            + height + 700 * 1024 || band.top
            + band.height <= scrolled - 200 * 1024,
        page_window::is_outside(band, scrolled, height, Travel::Up) <==> band.top >= scrolled
            + height + 200 * 1024 || band.top
            + band.height <= scrolled - 700 * 1024,
{
}

/// A viewport that is laid out is remembered: its width, how far it is scrolled, and which way it
/// went. Another width makes every measure void; the first width does not.
pub proof fn law_the_viewport_is_remembered(w: PageWindowView, v: Viewport)
    ensures
        ({
            let seen = page_window::observed(w, v);
            let shown = v.width > 0 && v.height > 0;
            &&& !shown ==> seen == w
            &&& shown ==> {
                &&& seen.width == Some(v.width)
                &&& seen.scrolled == v.scrolled
                &&& v.scrolled > w.scrolled ==> seen.travel is Down
                &&& v.scrolled < w.scrolled ==> seen.travel is Up
                &&& v.scrolled == w.scrolled ==> seen.travel == w.travel
                &&& w.width is None || w.width == Some(v.width) ==> seen.rows == w.rows
                &&& w.width is Some && w.width != Some(v.width) ==> seen.rows == Map::<
                    Seq<char>,
                    Band,
                >::empty()
                &&& seen.built == w.built
            }
        }),
{
}

/// A spacer stands in exactly for a measured row that lies outside, as tall as the row; every
/// other row is built and counted.
pub proof fn law_spacers_stand_in_for_rows_outside(
    w: PageWindowView,
    key: Seq<char>,
    v: Viewport,
)
    ensures
        ({
            let seen = page_window::observed(w, v);
            let place = page_window::placement_of(w, key, v);
            let after = page_window::placed(w, key, v);
            let outside = v.width > 0 && v.height > 0 && seen.rows.contains_key(key)
                && page_window::is_outside(
                seen.rows[key],
                v.scrolled as int,
                v.height as int,
                seen.travel,
            );
            &&& outside ==> place == Placement::Spacer(seen.rows[key].height) && after == seen
            &&& !outside ==> place == Placement::Row && after == PageWindowView {
                built: after.built,
                ..seen
            }
            &&& !outside && w.built < u64::MAX ==> after.built == w.built + 1
            &&& !outside && w.built == u64::MAX ==> after.built == w.built
        }),
{
}

/// A new page has measured, built and seen nothing, and is read downwards.
pub proof fn law_a_new_page_has_seen_nothing()
    ensures
        ({
            let w = page_window::fresh_page();
            &&& w.width is None
            &&& w.scrolled == 0
            &&& w.travel is Down
            &&& w.rows == Map::<Seq<char>, Band>::empty()
            &&& w.built == 0
        }),
{
}

} // verus!
